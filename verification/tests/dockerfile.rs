use tab_runner::dockerfile::format_commands;
use tab_runner::{
    generate_cpp_dockerfile, generate_dockerfile, generate_js_dockerfile,
    generate_rust_dockerfile, DockerSpecs, TestConfig,
};

fn bare_config(test_cmd: &str, parser: &str) -> TestConfig {
    TestConfig {
        test_cmd: test_cmd.to_string(),
        log_parser_name: parser.to_string(),
        pre_install: None,
        install: None,
        build: None,
        docker_specs: None,
    }
}

fn no_specs() -> DockerSpecs {
    DockerSpecs { ubuntu_version: None, node_version: None, pnpm_version: None, rust_version: None }
}

fn list(items: &[&str]) -> Option<Vec<String>> {
    Some(items.iter().map(|s| s.to_string()).collect())
}

fn expected_rust_default() -> String {
    [
        "FROM rust:latest\n",
        "\n",
        "ARG DEBIAN_FRONTEND=noninteractive\n",
        "ENV TZ=Etc/UTC\n",
        "\n",
        "RUN apt update && apt install -y \\\n",
        "wget \\\n",
        "git \\\n",
        "build-essential \\\n",
        "&& rm -rf /var/lib/apt/lists/*\n",
        "\n",
        "RUN adduser --disabled-password --gecos 'dog' nonroot\n",
        "\n",
        "WORKDIR /testbed/\n",
        "RUN git clone --depth 1 -o origin https://example.com/r.git /testbed\n",
        "RUN chmod -R 777 /testbed\n",
        "RUN git fetch origin abc123\n",
        "RUN git reset --hard abc123\n",
        "RUN git remote remove origin\n",
        "RUN printf '%s\\n' \"#!/bin/bash\" \"set -euxo pipefail\"    \"\" > /root/setup_repo.sh && chmod +x /root/setup_repo.sh\n",
        "RUN /bin/bash /root/setup_repo.sh\n",
        "\n",
        "WORKDIR /testbed/\n",
    ]
    .concat()
}

fn expected_rust_full() -> String {
    [
        "FROM rust:1.75\n",
        "\n",
        "ARG DEBIAN_FRONTEND=noninteractive\n",
        "ENV TZ=Etc/UTC\n",
        "\n",
        "RUN apt update && apt install -y \\\n",
        "wget \\\n",
        "git \\\n",
        "build-essential \\\n",
        "&& rm -rf /var/lib/apt/lists/*\n",
        "\n",
        "RUN adduser --disabled-password --gecos 'dog' nonroot\n",
        "\n",
        "WORKDIR /testbed/\n",
        "RUN git clone --depth 1 -o origin https://example.com/r.git /testbed\n",
        "RUN chmod -R 777 /testbed\n",
        "RUN git fetch origin abc123\n",
        "RUN git reset --hard abc123\n",
        "RUN git remote remove origin\n",
        "RUN printf '%s\\n' \"#!/bin/bash\" \"set -euxo pipefail\" \"apt-get update\" \"cargo fetch\" \"cargo build\" \"cargo test --no-run\" \"\" > /root/setup_repo.sh && chmod +x /root/setup_repo.sh\n",
        "RUN /bin/bash /root/setup_repo.sh\n",
        "\n",
        "WORKDIR /testbed/\n",
    ]
    .concat()
}

fn expected_cpp_default() -> String {
    [
        "FROM ubuntu:22.04\n",
        "\n",
        "ARG DEBIAN_FRONTEND=noninteractive\n",
        "ENV TZ=Etc/UTC\n",
        "\n",
        "# Uncomment deb-src lines. Only works on Ubuntu 22.04 and below\n",
        "RUN sed -i 's/^# deb-src/deb-src/' /etc/apt/sources.list\n",
        "\n",
        "# Includes dependencies for all C/C++ projects\n",
        "RUN apt update && \\\n",
        "    apt install -y wget git build-essential libtool automake autoconf tcl bison flex cmake python3 python3-pip python3-venv python-is-python3 && \\\n",
        "    rm -rf /var/lib/apt/lists/*\n",
        "\n",
        "RUN adduser --disabled-password --gecos 'dog' nonroot\n",
        "\n",
        "WORKDIR /testbed/\n",
        "RUN git clone --depth 1 -o origin https://example.com/c.git /testbed\n",
        "RUN chmod -R 777 /testbed\n",
        "RUN git fetch origin deadbeef\n",
        "RUN git reset --hard deadbeef\n",
        "RUN git remote remove origin\n",
        "RUN printf '%s\\n' \"#!/bin/bash\" \"set -euxo pipefail\"   \"make\" \"\" > /root/setup_repo.sh && chmod +x /root/setup_repo.sh\n",
        "RUN /bin/bash /root/setup_repo.sh\n",
        "\n",
        "WORKDIR /testbed/\n",
    ]
    .concat()
}

fn expected_cpp_ubuntu20() -> String {
    [
        "FROM ubuntu:20.04\n",
        "\n",
        "ARG DEBIAN_FRONTEND=noninteractive\n",
        "ENV TZ=Etc/UTC\n",
        "\n",
        "# Uncomment deb-src lines. Only works on Ubuntu 22.04 and below\n",
        "RUN sed -i 's/^# deb-src/deb-src/' /etc/apt/sources.list\n",
        "\n",
        "# Includes dependencies for all C/C++ projects\n",
        "RUN apt update && \\\n",
        "    apt install -y wget git build-essential libtool automake autoconf tcl bison flex cmake python3 python3-pip python3-venv python-is-python3 && \\\n",
        "    rm -rf /var/lib/apt/lists/*\n",
        "\n",
        "RUN adduser --disabled-password --gecos 'dog' nonroot\n",
        "\n",
        "WORKDIR /testbed/\n",
        "RUN git clone --depth 1 -o origin https://example.com/c.git /testbed\n",
        "RUN chmod -R 777 /testbed\n",
        "RUN git fetch origin deadbeef\n",
        "RUN git reset --hard deadbeef\n",
        "RUN git remote remove origin\n",
        "RUN printf '%s\\n' \"#!/bin/bash\" \"set -euxo pipefail\"    \"\" > /root/setup_repo.sh && chmod +x /root/setup_repo.sh\n",
        "RUN /bin/bash /root/setup_repo.sh\n",
        "\n",
        "WORKDIR /testbed/\n",
    ]
    .concat()
}

fn expected_js_default() -> String {
    [
        "FROM ubuntu:22.04\n",
        "\n",
        "ARG DEBIAN_FRONTEND=noninteractive\n",
        "ENV TZ=Etc/UTC\n",
        "\n",
        "RUN apt-get update && apt-get install -y \\\n",
        "    build-essential \\\n",
        "    curl \\\n",
        "    git \\\n",
        "    libssl-dev \\\n",
        "    software-properties-common \\\n",
        "    wget \\\n",
        "    gnupg \\\n",
        "    jq \\\n",
        "    ca-certificates \\\n",
        "    dbus \\\n",
        "    ffmpeg \\\n",
        "    imagemagick \\\n",
        "    libcairo2-dev \\\n",
        "    libpango1.0-dev \\\n",
        "    libjpeg-dev \\\n",
        "    libgif-dev \\\n",
        "    librsvg2-dev \\\n",
        "    pkg-config\n",
        "\n",
        "# Install node\n",
        "RUN bash -c \"set -eo pipefail && curl -fsSL https://deb.nodesource.com/setup_20.x | bash -\"\n",
        "RUN apt-get update && apt-get install -y nodejs\n",
        "RUN node -v && npm -v\n",
        "\n",
        "# Install pnpm\n",
        "RUN npm install --global corepack@latest\n",
        "RUN corepack enable pnpm\n",
        "\n",
        "# Install Chromium for browser testing\n",
        "RUN apt-get update && apt-get install -y chromium-browser\n",
        "ENV CHROME_BIN=/usr/bin/chromium-browser\n",
        "ENV CHROME_PATH=/usr/bin/chromium-browser\n",
        "\n",
        "RUN adduser --disabled-password --gecos 'dog' nonroot\n",
        "\n",
        "\n",
        "ARG DEBIAN_FRONTEND=noninteractive\n",
        "ENV TZ=Etc/UTC\n",
        "\n",
        "RUN printf '%s\\n' \"#!/bin/bash\" \"set -euxo pipefail\" \"\" > /root/setup_env.sh && chmod +x /root/setup_env.sh\n",
        "RUN sed -i -e 's/\\r$//' /root/setup_env.sh\n",
        "RUN chmod +x /root/setup_env.sh\n",
        "\n",
        "ENV NVM_DIR=/usr/local/nvm\n",
        "\n",
        "# Install Node\n",
        "ENV NODE_VERSION 20\n",
        "RUN node -v\n",
        "\n",
        "# Install Python 3 and Python 2\n",
        "RUN apt-get update && apt-get install -y python3 python3-pip python2\n",
        "\n",
        "# Ensure 'python' command points to python3\n",
        "RUN ln -s /usr/bin/python3 /usr/bin/python\n",
        "\n",
        "# Test Python installation\n",
        "RUN python -V && python3 -V && python2 -V\n",
        "\n",
        "# Set up environment variables for Node\n",
        "ENV NODE_PATH $NVM_DIR/v$NODE_VERSION/lib/node_modules\n",
        "ENV PATH $NVM_DIR/versions/node/v$NODE_VERSION/bin:$PATH\n",
        "RUN echo \"PATH=$PATH:/usr/local/nvm/versions/node/$NODE_VERSION/bin/node\" >> /etc/environment\n",
        "\n",
        "# Install pnpm\n",
        "RUN npm install -g pnpm@9.5.0 --force\n",
        "\n",
        "# Run the setup script\n",
        "RUN /bin/bash -c \"source ~/.bashrc && /root/setup_env.sh\"\n",
        "RUN node -v\n",
        "RUN npm -v\n",
        "RUN pnpm -v\n",
        "RUN python -V\n",
        "RUN python2 -V\n",
        "RUN yarn -v\n",
        "RUN npx -v\n",
        "\n",
        "WORKDIR /testbed/\n",
        "RUN git clone --depth 1 -o origin https://example.com/j.git /testbed\n",
        "RUN chmod -R 777 /testbed\n",
        "RUN git fetch origin 0123abcd\n",
        "RUN git reset --hard 0123abcd\n",
        "RUN git remote remove origin\n",
        "RUN printf '%s\\n' \"#!/bin/bash\" \"set -euxo pipefail\"    \"\" > /root/setup_repo.sh && chmod +x /root/setup_repo.sh\n",
        "RUN sed -i -e 's/\\r$//' /root/setup_repo.sh\n",
        "RUN node -v\n",
        "RUN npm -v\n",
        "RUN /bin/bash /root/setup_repo.sh\n",
        "\n",
        "WORKDIR /testbed/\n",
    ]
    .concat()
}

fn expected_js_custom() -> String {
    [
        "FROM ubuntu:24.04\n",
        "\n",
        "ARG DEBIAN_FRONTEND=noninteractive\n",
        "ENV TZ=Etc/UTC\n",
        "\n",
        "RUN apt-get update && apt-get install -y \\\n",
        "    build-essential \\\n",
        "    curl \\\n",
        "    git \\\n",
        "    libssl-dev \\\n",
        "    software-properties-common \\\n",
        "    wget \\\n",
        "    gnupg \\\n",
        "    jq \\\n",
        "    ca-certificates \\\n",
        "    dbus \\\n",
        "    ffmpeg \\\n",
        "    imagemagick \\\n",
        "    libcairo2-dev \\\n",
        "    libpango1.0-dev \\\n",
        "    libjpeg-dev \\\n",
        "    libgif-dev \\\n",
        "    librsvg2-dev \\\n",
        "    pkg-config\n",
        "\n",
        "# Install node\n",
        "RUN bash -c \"set -eo pipefail && curl -fsSL https://deb.nodesource.com/setup_18.x | bash -\"\n",
        "RUN apt-get update && apt-get install -y nodejs\n",
        "RUN node -v && npm -v\n",
        "\n",
        "# Install pnpm\n",
        "RUN npm install --global corepack@latest\n",
        "RUN corepack enable pnpm\n",
        "\n",
        "# Install Chromium for browser testing\n",
        "RUN apt-get update && apt-get install -y chromium-browser\n",
        "ENV CHROME_BIN=/usr/bin/chromium-browser\n",
        "ENV CHROME_PATH=/usr/bin/chromium-browser\n",
        "\n",
        "RUN adduser --disabled-password --gecos 'dog' nonroot\n",
        "\n",
        "\n",
        "ARG DEBIAN_FRONTEND=noninteractive\n",
        "ENV TZ=Etc/UTC\n",
        "\n",
        "RUN printf '%s\\n' \"#!/bin/bash\" \"set -euxo pipefail\" \"\" > /root/setup_env.sh && chmod +x /root/setup_env.sh\n",
        "RUN sed -i -e 's/\\r$//' /root/setup_env.sh\n",
        "RUN chmod +x /root/setup_env.sh\n",
        "\n",
        "ENV NVM_DIR=/usr/local/nvm\n",
        "\n",
        "# Install Node\n",
        "ENV NODE_VERSION 18\n",
        "RUN node -v\n",
        "\n",
        "# Install Python 3 and Python 2\n",
        "RUN apt-get update && apt-get install -y python3 python3-pip python2\n",
        "\n",
        "# Ensure 'python' command points to python3\n",
        "RUN ln -s /usr/bin/python3 /usr/bin/python\n",
        "\n",
        "# Test Python installation\n",
        "RUN python -V && python3 -V && python2 -V\n",
        "\n",
        "# Set up environment variables for Node\n",
        "ENV NODE_PATH $NVM_DIR/v$NODE_VERSION/lib/node_modules\n",
        "ENV PATH $NVM_DIR/versions/node/v$NODE_VERSION/bin:$PATH\n",
        "RUN echo \"PATH=$PATH:/usr/local/nvm/versions/node/$NODE_VERSION/bin/node\" >> /etc/environment\n",
        "\n",
        "# Install pnpm\n",
        "RUN npm install -g pnpm@8.15.0 --force\n",
        "\n",
        "# Run the setup script\n",
        "RUN /bin/bash -c \"source ~/.bashrc && /root/setup_env.sh\"\n",
        "RUN node -v\n",
        "RUN npm -v\n",
        "RUN pnpm -v\n",
        "RUN python -V\n",
        "RUN python2 -V\n",
        "RUN yarn -v\n",
        "RUN npx -v\n",
        "\n",
        "WORKDIR /testbed/\n",
        "RUN git clone --depth 1 -o origin https://example.com/j.git /testbed\n",
        "RUN chmod -R 777 /testbed\n",
        "RUN git fetch origin 0123abcd\n",
        "RUN git reset --hard 0123abcd\n",
        "RUN git remote remove origin\n",
        "RUN printf '%s\\n' \"#!/bin/bash\" \"set -euxo pipefail\" \"corepack enable\" \"pnpm install\" \"pnpm build\" \"pnpm lint\" \"\" > /root/setup_repo.sh && chmod +x /root/setup_repo.sh\n",
        "RUN sed -i -e 's/\\r$//' /root/setup_repo.sh\n",
        "RUN node -v\n",
        "RUN npm -v\n",
        "RUN /bin/bash /root/setup_repo.sh\n",
        "\n",
        "WORKDIR /testbed/\n",
    ]
    .concat()
}

#[test]
fn rust_recipe_with_defaults() {
    let config = bare_config("cargo test", "cargo");
    let out = generate_dockerfile(&config, "https://example.com/r.git", "abc123", "Rust");
    assert_eq!(out, expected_rust_default());
}

#[test]
fn rust_recipe_with_every_list() {
    let mut config = bare_config("cargo test", "cargo");
    config.pre_install = list(&["apt-get update"]);
    config.install = list(&["cargo fetch", "cargo build"]);
    config.build = list(&["cargo test --no-run"]);
    let mut specs = no_specs();
    specs.rust_version = Some("1.75".to_string());
    specs.ubuntu_version = Some("18.04".to_string());
    config.docker_specs = Some(specs);
    let out = generate_dockerfile(&config, "https://example.com/r.git", "abc123", "Rust");
    assert_eq!(out, expected_rust_full());
}

#[test]
fn cpp_recipe_with_defaults() {
    let mut config = bare_config("ctest", "googletest");
    config.build = list(&["make"]);
    config.install = list(&[]);
    let out = generate_dockerfile(&config, "https://example.com/c.git", "deadbeef", "C/CPP");
    assert_eq!(out, expected_cpp_default());
}

#[test]
fn cpp_recipe_takes_the_ubuntu_version() {
    let mut config = bare_config("ctest", "doctest");
    let mut specs = no_specs();
    specs.ubuntu_version = Some("20.04".to_string());
    specs.node_version = Some("99".to_string());
    config.docker_specs = Some(specs);
    let out = generate_dockerfile(&config, "https://example.com/c.git", "deadbeef", "C/CPP");
    assert_eq!(out, expected_cpp_ubuntu20());
}

#[test]
fn js_recipe_with_defaults() {
    let config = bare_config("npm test", "jest");
    let out = generate_dockerfile(&config, "https://example.com/j.git", "0123abcd", "JS");
    assert_eq!(out, expected_js_default());
}

#[test]
fn js_recipe_with_settings_but_no_versions_uses_defaults() {
    let mut config = bare_config("npm test", "jest");
    config.docker_specs = Some(no_specs());
    let out = generate_dockerfile(&config, "https://example.com/j.git", "0123abcd", "JS");
    assert_eq!(out, expected_js_default());
}

#[test]
fn js_recipe_with_custom_versions() {
    let mut config = bare_config("pnpm test", "vitest");
    config.pre_install = list(&["corepack enable"]);
    config.install = list(&["pnpm install"]);
    config.build = list(&["pnpm build", "pnpm lint"]);
    config.docker_specs = Some(DockerSpecs {
        ubuntu_version: Some("24.04".to_string()),
        node_version: Some("18".to_string()),
        pnpm_version: Some("8.15.0".to_string()),
        rust_version: Some("1.0".to_string()),
    });
    let out = generate_dockerfile(&config, "https://example.com/j.git", "0123abcd", "JS");
    assert_eq!(out, expected_js_custom());
}

#[test]
fn unknown_family_renders_the_js_recipe() {
    let config = bare_config("npm test", "jest");
    let js = generate_dockerfile(&config, "u", "c", "JS");
    assert_eq!(generate_dockerfile(&config, "u", "c", "Python"), js);
    assert_eq!(generate_dockerfile(&config, "u", "c", ""), js);
    assert_eq!(generate_dockerfile(&config, "u", "c", "rust"), js);
    assert_ne!(generate_dockerfile(&config, "u", "c", "Rust"), js);
    assert_ne!(generate_dockerfile(&config, "u", "c", "C/CPP"), js);
}

#[test]
fn js_scenario_contains_the_default_versions() {
    let config = bare_config("npm test", "jest");
    let out = generate_dockerfile(&config, "https://example.com/j.git", "0123abcd", "JS");
    assert!(out.contains("ubuntu:22.04"));
    assert!(out.contains("NODE_VERSION 20"));
    assert!(out.contains("pnpm@9.5.0"));
}

#[test]
fn family_renderers_take_the_words_as_given() {
    let config = bare_config("cargo test", "cargo");
    let out = generate_rust_dockerfile(&config, "https://example.com/r.git", "abc123", "", "", "");
    assert_eq!(out, expected_rust_default());
    let out = generate_cpp_dockerfile(&config, "https://example.com/c.git", "deadbeef", "", "", "\"make\"");
    assert_eq!(out, expected_cpp_default());
    let out = generate_js_dockerfile(&config, "https://example.com/j.git", "0123abcd", "", "", "");
    assert_eq!(out, expected_js_default());
}

#[test]
fn commands_are_quoted_and_joined_by_one_space() {
    assert_eq!(format_commands(&None), "");
    assert_eq!(format_commands(&list(&[])), "");
    assert_eq!(format_commands(&list(&["make"])), "\"make\"");
    assert_eq!(format_commands(&list(&["a b", "c"])), "\"a b\" \"c\"");
    assert_eq!(format_commands(&list(&["", ""])), "\"\" \"\"");
}

#[test]
fn absent_lists_leave_a_valid_script_line() {
    let config = bare_config("cargo test", "cargo");
    let out = generate_dockerfile(&config, "u", "c", "Rust");
    assert!(out.contains(
        "RUN printf '%s\\n' \"#!/bin/bash\" \"set -euxo pipefail\"    \"\" > /root/setup_repo.sh"
    ));
    assert!(!out.contains("null"));
    assert!(!out.contains("None"));
}

#[test]
fn rendering_twice_gives_the_same_text() {
    let mut config = bare_config("npm test", "mocha");
    config.install = list(&["npm ci"]);
    let first = generate_dockerfile(&config, "https://example.com/j.git", "ff00", "JS");
    let second = generate_dockerfile(&config, "https://example.com/j.git", "ff00", "JS");
    assert_eq!(first, second);
}

#[test]
fn commands_are_escaped_for_the_shell() {
    assert_eq!(format_commands(&list(&["echo \"hi\""])), "\"echo \\\"hi\\\"\"");
    assert_eq!(format_commands(&list(&["a\\b"])), "\"a\\\\b\"");
    assert_eq!(format_commands(&list(&["echo $HOME"])), "\"echo \\$HOME\"");
    assert_eq!(format_commands(&list(&["echo `date`"])), "\"echo \\`date\\`\"");
    assert_eq!(format_commands(&list(&["it's fine"])), "\"it's fine\"");
    assert_eq!(
        format_commands(&list(&["\"", "\\\"$`", ""])),
        "\"\\\"\" \"\\\\\\\"\\$\\`\" \"\""
    );
}

fn read_back(words: &str) -> Vec<String> {
    let chars: Vec<char> = words.chars().collect();
    let mut out = Vec::new();
    let mut i = 0;
    while i < chars.len() {
        assert_eq!(chars[i], '"');
        i += 1;
        let mut word = String::new();
        while chars[i] != '"' {
            assert!(chars[i] != '$' && chars[i] != '`');
            if chars[i] == '\\' && i + 1 < chars.len() && "\"\\$`".contains(chars[i + 1]) {
                i += 1;
            }
            word.push(chars[i]);
            i += 1;
        }
        i += 1;
        out.push(word);
        if i < chars.len() {
            assert_eq!(chars[i], ' ');
            i += 1;
        }
    }
    out
}

#[test]
fn a_shell_reads_the_words_back_as_the_commands() {
    let lists: Vec<Vec<&str>> = vec![
        vec![],
        vec!["make"],
        vec!["echo \"hi\""],
        vec!["a b", "c\\d", "$(rm -rf /)", "`x`", "say \"$HOME\" \\\\ done"],
        vec!["", "\"", "\\", "\\\"", " "],
    ];
    for items in lists {
        let words = format_commands(&list(&items));
        assert_eq!(read_back(&words), items, "{:?}", words);
    }
}

#[test]
fn the_recipe_holds_the_escaped_build_command() {
    let mut config = bare_config("cargo test", "cargo");
    config.build = list(&["echo \"hi\""]);
    let out = generate_dockerfile(&config, "u", "c", "Rust");
    assert!(out.contains(
        "\"set -euxo pipefail\"   \"echo \\\"hi\\\"\" \"\" > /root/setup_repo.sh"
    ));
}
