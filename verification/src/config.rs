//! The typed configuration of a test bed.

use vstd::prelude::*;
use crate::text::{opt_text, opt_texts};

verus! {

/// Image settings. Which of them a document may set depends on the
/// language family.
#[derive(Debug, Clone, PartialEq, Eq)]
pub struct DockerSpecs {
    pub ubuntu_version: Option<String>,
    pub node_version: Option<String>,
    pub pnpm_version: Option<String>,
    pub rust_version: Option<String>,
}

/// What a `DockerSpecs` holds.
pub struct DockerSpecsView {
    pub ubuntu_version: Option<Seq<char>>,
    pub node_version: Option<Seq<char>>,
    pub pnpm_version: Option<Seq<char>>,
    pub rust_version: Option<Seq<char>>,
}

impl View for DockerSpecs {
    type V = DockerSpecsView;

    open spec fn view(&self) -> DockerSpecsView {
        DockerSpecsView {
            ubuntu_version: opt_text(self.ubuntu_version),
            node_version: opt_text(self.node_version),
            pnpm_version: opt_text(self.pnpm_version),
            rust_version: opt_text(self.rust_version),
        }
    }
}

/// A checked configuration: the test command, the log parser, and the
/// optional command lists and image settings.
#[derive(Debug, Clone, PartialEq, Eq)]
pub struct TestConfig {
    pub test_cmd: String,
    pub log_parser_name: String,
    pub pre_install: Option<Vec<String>>,
    pub install: Option<Vec<String>>,
    pub build: Option<Vec<String>>,
    pub docker_specs: Option<DockerSpecs>,
}

/// What a `TestConfig` holds.
pub struct TestConfigView {
    pub test_cmd: Seq<char>,
    pub log_parser_name: Seq<char>,
    pub pre_install: Option<Seq<Seq<char>>>,
    pub install: Option<Seq<Seq<char>>>,
    pub build: Option<Seq<Seq<char>>>,
    pub docker_specs: Option<DockerSpecsView>,
}

impl View for TestConfig {
    type V = TestConfigView;

    open spec fn view(&self) -> TestConfigView {
        TestConfigView {
            test_cmd: self.test_cmd@,
            log_parser_name: self.log_parser_name@,
            pre_install: opt_texts(self.pre_install),
            install: opt_texts(self.install),
            build: opt_texts(self.build),
            docker_specs: match self.docker_specs {
                Some(specs) => Some(specs@),
                None => None,
            },
        }
    }
}

/// The answer to a request for a recipe: the recipe, or why there is none.
#[derive(Debug, Clone, PartialEq, Eq)]
pub struct ValidationResult {
    pub success: bool,
    pub error: Option<String>,
    pub dockerfile: Option<String>,
}

/// What a `ValidationResult` holds.
pub struct ValidationResultView {
    pub success: bool,
    pub error: Option<Seq<char>>,
    pub dockerfile: Option<Seq<char>>,
}

impl View for ValidationResult {
    type V = ValidationResultView;

    open spec fn view(&self) -> ValidationResultView {
        ValidationResultView {
            success: self.success,
            error: opt_text(self.error),
            dockerfile: opt_text(self.dockerfile),
        }
    }
}

} // verus!
