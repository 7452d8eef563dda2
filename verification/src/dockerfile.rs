//! Build recipes: the text from which the container engine builds the
//! image of a test bed.
//!
//! A recipe is the family's toolchain, the shallow checkout of one commit,
//! and a setup script made of the configuration's three command lists.

use vstd::prelude::*;
use crate::config::{DockerSpecsView, TestConfig, TestConfigView};
use crate::language::{family_of, LanguageFamily};
use crate::shell::{
    lemma_words_read_back, push_quoted, quoted, quoted_all, read_words, words_of,
};
use crate::text::joined;

verus! {

/// Opens a recipe on an Ubuntu base image; the version follows.
pub const UBUNTU_FROM: &'static str = "FROM ubuntu:";

/// Opens a recipe on a Rust base image; the version follows.
pub const RUST_FROM: &'static str = "FROM rust:";

/// JavaScript: the base packages, up to the Node.js major version in the
/// address of its setup script.
pub const JS_TOOLCHAIN: &'static str = "

ARG DEBIAN_FRONTEND=noninteractive
ENV TZ=Etc/UTC

RUN apt-get update && apt-get install -y \\
    build-essential \\
    curl \\
    git \\
    libssl-dev \\
    software-properties-common \\
    wget \\
    gnupg \\
    jq \\
    ca-certificates \\
    dbus \\
    ffmpeg \\
    imagemagick \\
    libcairo2-dev \\
    libpango1.0-dev \\
    libjpeg-dev \\
    libgif-dev \\
    librsvg2-dev \\
    pkg-config

# Install node
RUN bash -c \"set -eo pipefail && curl -fsSL https://deb.nodesource.com/setup_";

/// JavaScript: Node.js, corepack, Chromium and the unprivileged user, up to
/// the Node.js version in the environment.
pub const JS_RUNTIME: &'static str = ".x | bash -\"
RUN apt-get update && apt-get install -y nodejs
RUN node -v && npm -v

# Install pnpm
RUN npm install --global corepack@latest
RUN corepack enable pnpm

# Install Chromium for browser testing
RUN apt-get update && apt-get install -y chromium-browser
ENV CHROME_BIN=/usr/bin/chromium-browser
ENV CHROME_PATH=/usr/bin/chromium-browser

RUN adduser --disabled-password --gecos 'dog' nonroot


ARG DEBIAN_FRONTEND=noninteractive
ENV TZ=Etc/UTC

RUN printf '%s\\n' \"#!/bin/bash\" \"set -euxo pipefail\" \"\" > /root/setup_env.sh && chmod +x /root/setup_env.sh
RUN sed -i -e 's/\\r$//' /root/setup_env.sh
RUN chmod +x /root/setup_env.sh

ENV NVM_DIR=/usr/local/nvm

# Install Node
ENV NODE_VERSION ";

/// JavaScript: the Python interpreters and the Node.js paths, up to the
/// pnpm version in its installation.
pub const JS_PYTHON: &'static str = "
RUN node -v

# Install Python 3 and Python 2
RUN apt-get update && apt-get install -y python3 python3-pip python2

# Ensure 'python' command points to python3
RUN ln -s /usr/bin/python3 /usr/bin/python

# Test Python installation
RUN python -V && python3 -V && python2 -V

# Set up environment variables for Node
ENV NODE_PATH $NVM_DIR/v$NODE_VERSION/lib/node_modules
ENV PATH $NVM_DIR/versions/node/v$NODE_VERSION/bin:$PATH
RUN echo \"PATH=$PATH:/usr/local/nvm/versions/node/$NODE_VERSION/bin/node\" >> /etc/environment

# Install pnpm
RUN npm install -g pnpm@";

/// JavaScript: ends the installation of pnpm, runs the environment script
/// and prints every tool's version.
pub const JS_CHECKS: &'static str = " --force

# Run the setup script
RUN /bin/bash -c \"source ~/.bashrc && /root/setup_env.sh\"
RUN node -v
RUN npm -v
RUN pnpm -v
RUN python -V
RUN python2 -V
RUN yarn -v
RUN npx -v

";

/// C and C++: the build tools every project of the family needs.
pub const C_TOOLCHAIN: &'static str = "

ARG DEBIAN_FRONTEND=noninteractive
ENV TZ=Etc/UTC

# Uncomment deb-src lines. Only works on Ubuntu 22.04 and below
RUN sed -i 's/^# deb-src/deb-src/' /etc/apt/sources.list

# Includes dependencies for all C/C++ projects
RUN apt update && \\
    apt install -y wget git build-essential libtool automake autoconf tcl bison flex cmake python3 python3-pip python3-venv python-is-python3 && \\
    rm -rf /var/lib/apt/lists/*

RUN adduser --disabled-password --gecos 'dog' nonroot

";

/// Rust: the few packages that the base image lacks.
pub const RUST_TOOLCHAIN: &'static str = "

ARG DEBIAN_FRONTEND=noninteractive
ENV TZ=Etc/UTC

RUN apt update && apt install -y \\
wget \\
git \\
build-essential \\
&& rm -rf /var/lib/apt/lists/*

RUN adduser --disabled-password --gecos 'dog' nonroot

";

/// Starts the shallow clone; the repository address follows.
pub const CLONE: &'static str = "WORKDIR /testbed/
RUN git clone --depth 1 -o origin ";

/// Opens the clone to every user and fetches; the commit follows.
pub const FETCH: &'static str = " /testbed
RUN chmod -R 777 /testbed
RUN git fetch origin ";

/// Moves the work tree to the commit, which follows.
pub const RESET: &'static str = "
RUN git reset --hard ";

/// Removes the remote, so that the image keeps no way back to it.
pub const FORGET_REMOTE: &'static str = "
RUN git remote remove origin
";

/// Writes the repository's setup script, which stops at the first failing
/// line; the three command lists follow.
pub const SCRIPT_HEAD: &'static str = "RUN printf '%s\\n' \"#!/bin/bash\" \"set -euxo pipefail\" ";

/// Stands between two command lists.
pub const GAP: &'static str = " ";

/// Closes the setup script and makes it executable.
pub const SCRIPT_TAIL: &'static str = " \"\" > /root/setup_repo.sh && chmod +x /root/setup_repo.sh
";

/// JavaScript: strips carriage returns from the setup script and prints the
/// Node.js and npm versions once more.
pub const JS_SCRIPT_FIXES: &'static str = "RUN sed -i -e 's/\\r$//' /root/setup_repo.sh
RUN node -v
RUN npm -v
";

/// Runs the setup script and leaves the work directory at the test bed.
pub const RUN_SCRIPT: &'static str = "RUN /bin/bash /root/setup_repo.sh

WORKDIR /testbed/
";

/// The Ubuntu version of a recipe that names none.
pub const DEFAULT_UBUNTU: &'static str = "22.04";

/// The Node.js version of a recipe that names none.
pub const DEFAULT_NODE: &'static str = "20";

/// The pnpm version of a recipe that names none.
pub const DEFAULT_PNPM: &'static str = "9.5.0";

/// The Rust version of a recipe that names none.
pub const DEFAULT_RUST: &'static str = "latest";

/// A command list as words of the setup script: each command quoted for
/// the shell, one space between neighbours. No list, or an empty one, is
/// the empty text.
pub open spec fn command_words(commands: Option<Seq<Seq<char>>>) -> Seq<char> {
    match commands {
        Some(list) => words_of(list),
        None => Seq::empty(),
    }
}

/// The commands of a list; none where there is no list.
pub open spec fn commands_of(commands: Option<Seq<Seq<char>>>) -> Seq<Seq<char>> {
    match commands {
        Some(list) => list,
        None => Seq::empty(),
    }
}

/// The shell that writes the setup script reads the words of a command
/// list back as exactly the commands of the list, whatever quotes,
/// backslashes, dollar signs or backquotes they hold.
pub proof fn lemma_commands_read_back(commands: Option<Seq<Seq<char>>>)
    ensures
        read_words(command_words(commands)) == Some(commands_of(commands)),
{
    lemma_words_read_back(commands_of(commands));
}

/// The setting that `pick` finds in the image settings, or `fallback`
/// where there are no settings or the setting is absent.
pub open spec fn setting_or(
    specs: Option<DockerSpecsView>,
    pick: spec_fn(DockerSpecsView) -> Option<Seq<char>>,
    fallback: Seq<char>,
) -> Seq<char> {
    match specs {
        Some(s) => match pick(s) {
            Some(version) => version,
            None => fallback,
        },
        None => fallback,
    }
}

/// The Ubuntu version a configuration asks for.
pub open spec fn ubuntu_version(config: TestConfigView) -> Seq<char> {
    setting_or(config.docker_specs, |s: DockerSpecsView| s.ubuntu_version, DEFAULT_UBUNTU@)
}

/// The Node.js version a configuration asks for.
pub open spec fn node_version(config: TestConfigView) -> Seq<char> {
    setting_or(config.docker_specs, |s: DockerSpecsView| s.node_version, DEFAULT_NODE@)
}

/// The pnpm version a configuration asks for.
pub open spec fn pnpm_version(config: TestConfigView) -> Seq<char> {
    setting_or(config.docker_specs, |s: DockerSpecsView| s.pnpm_version, DEFAULT_PNPM@)
}

/// The Rust version a configuration asks for.
pub open spec fn rust_version(config: TestConfigView) -> Seq<char> {
    setting_or(config.docker_specs, |s: DockerSpecsView| s.rust_version, DEFAULT_RUST@)
}

/// The shallow checkout of exactly one commit: clone at depth one, fetch
/// the commit, reset the work tree to it, remove the remote.
pub open spec fn checkout_steps(repo: Seq<char>, commit: Seq<char>) -> Seq<char> {
    CLONE@ + repo + FETCH@ + commit + RESET@ + commit + FORGET_REMOTE@
}

/// The step that writes the setup script from the three lists of words, in
/// the order in which they run.
pub open spec fn setup_script(
    pre_install: Seq<char>,
    install: Seq<char>,
    build: Seq<char>,
) -> Seq<char> {
    SCRIPT_HEAD@ + pre_install + GAP@ + install + GAP@ + build + SCRIPT_TAIL@
}

/// The JavaScript recipe.
pub open spec fn js_recipe(
    config: TestConfigView,
    repo: Seq<char>,
    commit: Seq<char>,
    pre_install: Seq<char>,
    install: Seq<char>,
    build: Seq<char>,
) -> Seq<char> {
    UBUNTU_FROM@ + ubuntu_version(config) + JS_TOOLCHAIN@ + node_version(config) + JS_RUNTIME@
        + node_version(config) + JS_PYTHON@ + pnpm_version(config) + JS_CHECKS@ + checkout_steps(
        repo,
        commit,
    ) + setup_script(pre_install, install, build) + JS_SCRIPT_FIXES@ + RUN_SCRIPT@
}

/// The C and C++ recipe.
pub open spec fn cpp_recipe(
    config: TestConfigView,
    repo: Seq<char>,
    commit: Seq<char>,
    pre_install: Seq<char>,
    install: Seq<char>,
    build: Seq<char>,
) -> Seq<char> {
    UBUNTU_FROM@ + ubuntu_version(config) + C_TOOLCHAIN@ + checkout_steps(repo, commit)
        + setup_script(pre_install, install, build) + RUN_SCRIPT@
}

/// The Rust recipe.
pub open spec fn rust_recipe(
    config: TestConfigView,
    repo: Seq<char>,
    commit: Seq<char>,
    pre_install: Seq<char>,
    install: Seq<char>,
    build: Seq<char>,
) -> Seq<char> {
    RUST_FROM@ + rust_version(config) + RUST_TOOLCHAIN@ + checkout_steps(repo, commit)
        + setup_script(pre_install, install, build) + RUN_SCRIPT@
}

/// The recipe of a configuration for a repository at a commit, in the
/// family that `language` names.
pub open spec fn recipe(
    config: TestConfigView,
    repo: Seq<char>,
    commit: Seq<char>,
    language: Seq<char>,
) -> Seq<char> {
    let pre_install = command_words(config.pre_install);
    let install = command_words(config.install);
    let build = command_words(config.build);
    match family_of(language) {
        LanguageFamily::CFamily => cpp_recipe(config, repo, commit, pre_install, install, build),
        LanguageFamily::Rust => rust_recipe(config, repo, commit, pre_install, install, build),
        LanguageFamily::JavaScript => js_recipe(
            config,
            repo,
            commit,
            pre_install,
            install,
            build,
        ),
    }
}

/// Appends the checkout steps to a recipe.
fn push_checkout(out: &mut String, repo: &str, commit: &str)
    ensures
        final(out)@ == old(out)@ + checkout_steps(repo@, commit@),
{
    out.append(CLONE);
    out.append(repo);
    out.append(FETCH);
    out.append(commit);
    out.append(RESET);
    out.append(commit);
    out.append(FORGET_REMOTE);
    assert(out@ =~= old(out)@ + checkout_steps(repo@, commit@));
}

/// Appends the step that writes the setup script to a recipe.
fn push_setup_script(out: &mut String, pre_install: &str, install: &str, build: &str)
    ensures
        final(out)@ == old(out)@ + setup_script(pre_install@, install@, build@),
{
    out.append(SCRIPT_HEAD);
    out.append(pre_install);
    out.append(GAP);
    out.append(install);
    out.append(GAP);
    out.append(build);
    out.append(SCRIPT_TAIL);
    assert(out@ =~= old(out)@ + setup_script(pre_install@, install@, build@));
}

/// The Ubuntu version to build on.
fn chosen_ubuntu(config: &TestConfig) -> (version: &str)
    ensures
        version@ == ubuntu_version(config@),
{
    match &config.docker_specs {
        Some(specs) => match &specs.ubuntu_version {
            Some(version) => version.as_str(),
            None => DEFAULT_UBUNTU,
        },
        None => DEFAULT_UBUNTU,
    }
}

/// The Node.js version to install.
fn chosen_node(config: &TestConfig) -> (version: &str)
    ensures
        version@ == node_version(config@),
{
    match &config.docker_specs {
        Some(specs) => match &specs.node_version {
            Some(version) => version.as_str(),
            None => DEFAULT_NODE,
        },
        None => DEFAULT_NODE,
    }
}

/// The pnpm version to install.
fn chosen_pnpm(config: &TestConfig) -> (version: &str)
    ensures
        version@ == pnpm_version(config@),
{
    match &config.docker_specs {
        Some(specs) => match &specs.pnpm_version {
            Some(version) => version.as_str(),
            None => DEFAULT_PNPM,
        },
        None => DEFAULT_PNPM,
    }
}

/// The Rust version to build on.
fn chosen_rust(config: &TestConfig) -> (version: &str)
    ensures
        version@ == rust_version(config@),
{
    match &config.docker_specs {
        Some(specs) => match &specs.rust_version {
            Some(version) => version.as_str(),
            None => DEFAULT_RUST,
        },
        None => DEFAULT_RUST,
    }
}

/// Writes a command list as words of the setup script.
pub fn format_commands(commands: &Option<Vec<String>>) -> (words: String)
    ensures
        words@ == command_words(crate::text::opt_texts(*commands)),
{
    let mut words = String::new();
    match commands {
        Some(list) => {
            proof {
                reveal_strlit(" ");
            }
            let ghost all = quoted_all(crate::text::texts(list@));
            let mut i: usize = 0;
            while i < list.len()
                invariant
                    i <= list.len(),
                    GAP@ == seq![' '],
                    all == quoted_all(crate::text::texts(list@)),
                    words@ == joined(all.take(i as int), seq![' ']),
                decreases list.len() - i,
            {
                proof {
                    assert(all.take(i + 1).drop_last() =~= all.take(i as int));
                    assert(all.take(i + 1).last() == quoted(list@[i as int]@));
                }
                if i > 0 {
                    words.append(GAP);
                }
                push_quoted(&mut words, list[i].as_str());
                proof {
                    assert(words@ =~= joined(all.take(i + 1), seq![' ']));
                }
                i = i + 1;
            }
            proof {
                assert(all.take(list.len() as int) =~= all);
            }
        },
        None => {},
    }
    words
}

/// Renders the JavaScript recipe of `config` from the three command lists
/// already written as words.
pub fn generate_js_dockerfile(
    config: &TestConfig,
    github_repo_url: &str,
    commit: &str,
    pre_install_cmds: &str,
    install_cmds: &str,
    build_cmds: &str,
) -> (out: String)
    ensures
        out@ == js_recipe(
            config@,
            github_repo_url@,
            commit@,
            pre_install_cmds@,
            install_cmds@,
            build_cmds@,
        ),
{
    let node = chosen_node(config);
    let mut out = String::new();
    out.append(UBUNTU_FROM);
    out.append(chosen_ubuntu(config));
    out.append(JS_TOOLCHAIN);
    out.append(node);
    out.append(JS_RUNTIME);
    out.append(node);
    out.append(JS_PYTHON);
    out.append(chosen_pnpm(config));
    out.append(JS_CHECKS);
    push_checkout(&mut out, github_repo_url, commit);
    push_setup_script(&mut out, pre_install_cmds, install_cmds, build_cmds);
    out.append(JS_SCRIPT_FIXES);
    out.append(RUN_SCRIPT);
    assert(out@ =~= js_recipe(
        config@,
        github_repo_url@,
        commit@,
        pre_install_cmds@,
        install_cmds@,
        build_cmds@,
    ));
    out
}

/// Renders the C and C++ recipe of `config` from the three command lists
/// already written as words.
pub fn generate_cpp_dockerfile(
    config: &TestConfig,
    github_repo_url: &str,
    commit: &str,
    pre_install_cmds: &str,
    install_cmds: &str,
    build_cmds: &str,
) -> (out: String)
    ensures
        out@ == cpp_recipe(
            config@,
            github_repo_url@,
            commit@,
            pre_install_cmds@,
            install_cmds@,
            build_cmds@,
        ),
{
    let mut out = String::new();
    out.append(UBUNTU_FROM);
    out.append(chosen_ubuntu(config));
    out.append(C_TOOLCHAIN);
    push_checkout(&mut out, github_repo_url, commit);
    push_setup_script(&mut out, pre_install_cmds, install_cmds, build_cmds);
    out.append(RUN_SCRIPT);
    assert(out@ =~= cpp_recipe(
        config@,
        github_repo_url@,
        commit@,
        pre_install_cmds@,
        install_cmds@,
        build_cmds@,
    ));
    out
}

/// Renders the Rust recipe of `config` from the three command lists already
/// written as words.
pub fn generate_rust_dockerfile(
    config: &TestConfig,
    github_repo_url: &str,
    commit: &str,
    pre_install_cmds: &str,
    install_cmds: &str,
    build_cmds: &str,
) -> (out: String)
    ensures
        out@ == rust_recipe(
            config@,
            github_repo_url@,
            commit@,
            pre_install_cmds@,
            install_cmds@,
            build_cmds@,
        ),
{
    let mut out = String::new();
    out.append(RUST_FROM);
    out.append(chosen_rust(config));
    out.append(RUST_TOOLCHAIN);
    push_checkout(&mut out, github_repo_url, commit);
    push_setup_script(&mut out, pre_install_cmds, install_cmds, build_cmds);
    out.append(RUN_SCRIPT);
    assert(out@ =~= rust_recipe(
        config@,
        github_repo_url@,
        commit@,
        pre_install_cmds@,
        install_cmds@,
        build_cmds@,
    ));
    out
}

/// Renders the recipe of `config` for the repository at `commit`, in the
/// family that `language` names.
pub fn generate_dockerfile(
    config: &TestConfig,
    github_repo_url: &str,
    commit: &str,
    language: &str,
) -> (out: String)
    ensures
        out@ == recipe(config@, github_repo_url@, commit@, language@),
{
    let pre_install_cmds = format_commands(&config.pre_install);
    let install_cmds = format_commands(&config.install);
    let build_cmds = format_commands(&config.build);
    match LanguageFamily::from_name(language) {
        LanguageFamily::CFamily => generate_cpp_dockerfile(
            config,
            github_repo_url,
            commit,
            pre_install_cmds.as_str(),
            install_cmds.as_str(),
            build_cmds.as_str(),
        ),
        LanguageFamily::Rust => generate_rust_dockerfile(
            config,
            github_repo_url,
            commit,
            pre_install_cmds.as_str(),
            install_cmds.as_str(),
            build_cmds.as_str(),
        ),
        LanguageFamily::JavaScript => generate_js_dockerfile(
            config,
            github_repo_url,
            commit,
            pre_install_cmds.as_str(),
            install_cmds.as_str(),
            build_cmds.as_str(),
        ),
    }
}

} // verus!
