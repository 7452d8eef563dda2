//! Tab-scoped build and test execution for containerised test beds.
//!
//! A session ("tab") describes a repository's test environment as a small
//! JSON document. The library checks that document, renders it into a build
//! recipe, and decides every step of launching, supervising and cancelling
//! the engine processes that build an image from the recipe and run a test
//! command in it. The surrounding shell performs the input and output; every
//! decision it acts on is made here and carries a proved contract.

pub mod text;
pub mod shell;
pub mod kind;
pub mod language;
pub mod json;
pub mod schema;
pub mod config;
pub mod validation;
pub mod dockerfile;
pub mod process;
pub mod images;
pub mod engine;
pub mod registry;
pub mod events;
pub mod controller;
pub mod supervisor;
pub mod session;
pub mod generation;
pub mod settings;

pub use config::{DockerSpecs, TestConfig, ValidationResult};
pub use controller::SessionController;
pub use dockerfile::{
    generate_cpp_dockerfile, generate_dockerfile, generate_js_dockerfile,
    generate_rust_dockerfile,
};
pub use engine::{check_docker_available, check_docker_image_exists};
pub use events::{BuildCompleteEvent, LogEvent, SessionEvent, TestCompleteEvent};
pub use generation::generate_docker_file;
pub use kind::OperationKind;
pub use language::LanguageFamily;
pub use process::{HandleStatus, ProcessHandle};
pub use registry::ProcessRegistry;
pub use settings::{load_config, save_config};
pub use session::{
    build_docker_image, run_docker_test, stop_docker_build, stop_docker_test, Launch, Refusal,
    Spawned, StartError, StopError,
};
pub use supervisor::{LogSource, Phase, Supervisor};
pub use validation::{validate_json_config, ValidationError};
