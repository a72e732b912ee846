//! CI/CD pipelines: the pipeline configuration and the pipeline files
//! generated from it for GitHub Actions, GitLab CI, Jenkins, Azure DevOps and
//! CircleCI.
use vstd::prelude::*;
use std::collections::HashMap;
use crate::text::{decimal, decimal_string, join_line_list, join_lines, join_sep, join_with};

verus! {

/// A CI/CD platform.
#[derive(Debug, Clone, Copy, PartialEq, Eq, Structural)]
pub enum CICDPlatform {
    /// GitHub Actions.
    GitHubActions,
    /// GitLab CI.
    GitLabCI,
    /// Jenkins.
    Jenkins,
    /// Azure DevOps.
    AzureDevOps,
    /// CircleCI.
    CircleCI,
}

/// The build environment.
#[derive(Debug, Clone)]
pub struct BuildEnvironment {
    /// Rust version.
    pub rust_version: String,
    /// Operating systems.
    pub os: Vec<String>,
    /// Architectures.
    pub arch: Vec<String>,
    /// Whether caching is on.
    pub cache_enabled: bool,
    /// Build tools.
    pub build_tools: Vec<String>,
}

/// The tests a pipeline runs. The coverage threshold is in whole percent.
#[derive(Debug, Clone)]
pub struct TestConfig {
    /// Unit tests.
    pub unit_tests: bool,
    /// Integration tests.
    pub integration_tests: bool,
    /// Performance tests.
    pub performance_tests: bool,
    /// Code coverage.
    pub coverage_enabled: bool,
    /// Coverage required, in percent.
    pub coverage_threshold_percent: u32,
    /// Time-out of the tests, in minutes.
    pub timeout_minutes: u32,
}

/// A deployment environment.
#[derive(Debug, Clone)]
pub struct Environment {
    /// Name.
    pub name: String,
    /// Branch deployed.
    pub branch: String,
    /// Whether it deploys by itself.
    pub auto_deploy: bool,
    /// Whether a deployment needs approval.
    pub approval_required: bool,
    /// Environment variables.
    pub env_vars: HashMap<String, String>,
}

/// The Docker build.
#[derive(Debug, Clone)]
pub struct DockerBuildConfig {
    /// Image name.
    pub image_name: String,
    /// Registry.
    pub registry: String,
    /// Build arguments.
    pub build_args: HashMap<String, String>,
    /// Whether several platforms are built.
    pub multi_platform: bool,
    /// Platforms.
    pub platforms: Vec<String>,
}

/// A Kubernetes deployment of the pipeline.
#[derive(Debug, Clone)]
pub struct K8sDeployConfig {
    /// Cluster.
    pub cluster: String,
    /// Namespace.
    pub namespace: String,
    /// Path of the Helm chart.
    pub helm_chart_path: String,
    /// Values files.
    pub values_files: Vec<String>,
}

/// The artifact registry.
#[derive(Debug, Clone)]
pub struct ArtifactRegistry {
    /// Kind of registry.
    pub registry_type: String,
    /// URL.
    pub url: String,
    /// Authentication.
    pub auth_config: String,
}

/// The deployment of the pipeline.
#[derive(Debug, Clone)]
pub struct DeploymentConfig {
    /// Environments.
    pub environments: Vec<Environment>,
    /// Docker build.
    pub docker: DockerBuildConfig,
    /// Kubernetes deployment, if any.
    pub kubernetes: Option<K8sDeployConfig>,
    /// Artifact registry.
    pub artifact_registry: ArtifactRegistry,
}

/// When the pipeline runs.
#[derive(Debug, Clone)]
pub struct TriggerConfig {
    /// On pushes.
    pub on_push: bool,
    /// On pull requests.
    pub on_pull_request: bool,
    /// On a schedule, if any.
    pub on_schedule: Option<String>,
    /// On tags.
    pub on_tag: bool,
    /// Branches.
    pub branch_filters: Vec<String>,
}

/// A pipeline. Its environment variables are a list of distinct names with
/// their values.
#[derive(Debug, Clone)]
pub struct CICDConfig {
    /// Platform.
    pub platform: CICDPlatform,
    /// Project name.
    pub project_name: String,
    /// Build environment.
    pub build_environment: BuildEnvironment,
    /// Tests.
    pub test_config: TestConfig,
    /// Deployment.
    pub deployment_config: DeploymentConfig,
    /// Environment variables.
    pub environment_variables: Vec<(String, String)>,
    /// Secrets.
    pub secrets: Vec<String>,
    /// Triggers.
    pub triggers: TriggerConfig,
}

/// A hexadecimal digit, in lower case.
pub open spec fn hex_digit(d: int) -> char {
    "0123456789abcdef"@[d]
}

/// How JSON writes a character inside a string, as `serde_json` escapes it:
/// quote and backslash behind a backslash; backspace, tab, line feed, form
/// feed and carriage return as `\b`, `\t`, `\n`, `\f`, `\r`; every other
/// character below U+0020 as `\u00` and two lower-case hex digits; any other
/// character as itself.
pub open spec fn json_char(c: char) -> Seq<char> {
    if c == '"' {
        seq!['\\', '"']
    } else if c == '\\' {
        seq!['\\', '\\']
    } else if c == '\u{8}' {
        seq!['\\', 'b']
    } else if c == '\t' {
        seq!['\\', 't']
    } else if c == '\n' {
        seq!['\\', 'n']
    } else if c == '\u{c}' {
        seq!['\\', 'f']
    } else if c == '\r' {
        seq!['\\', 'r']
    } else if (c as int) < 0x20 {
        seq!['\\', 'u', '0', '0', hex_digit((c as int) / 16), hex_digit((c as int) % 16)]
    } else {
        seq![c]
    }
}

/// The escaped contents of a JSON string.
pub open spec fn json_escaped(s: Seq<char>) -> Seq<char>
    decreases s.len(),
{
    if s.len() == 0 {
        Seq::empty()
    } else {
        json_escaped(s.drop_last()) + json_char(s.last())
    }
}

/// A text as a JSON string: the escaped contents between quotes.
pub open spec fn json_string(s: Seq<char>) -> Seq<char> {
    seq!['"'] + json_escaped(s) + seq!['"']
}

/// The JSON strings of some texts, separated by commas.
pub open spec fn json_items(v: Seq<Seq<char>>) -> Seq<char>
    decreases v.len(),
{
    if v.len() == 0 {
        Seq::empty()
    } else if v.len() == 1 {
        json_string(v[0])
    } else {
        json_items(v.drop_last()) + seq![','] + json_string(v.last())
    }
}

/// `serde_json::to_string` of a list of texts: `[`, the texts as JSON
/// strings separated by commas, and `]`.
pub open spec fn json_text_list(v: Seq<Seq<char>>) -> Seq<char> {
    seq!['['] + json_items(v) + seq![']']
}

/// The JSON array of a list of texts, as `serde_json::to_string` writes it
/// (see `json_text_list`); serialising texts does not fail.
#[verifier::external_body]
fn json_list(v: &Vec<String>) -> (r: String)
    ensures
        r@ == json_text_list(v@.map_values(|s: String| s@)),
{
    serde_json::to_string(v).unwrap_or_default()
}

/// The texts of a sequence of strings.
pub open spec fn strs(v: Seq<String>) -> Seq<Seq<char>> {
    v.map_values(|s: String| s@)
}

/// The environment lines of the CI workflow.
pub open spec fn ci_env_lines(v: Seq<(String, String)>) -> Seq<Seq<char>> {
    v.map_values(|e: (String, String)| "  "@ + e.0@ + ": "@ + e.1@)
}

/// The coverage steps of the CI workflow, when coverage is on.
pub open spec fn coverage_steps(on: bool) -> Seq<char> {
    if on { "    - name: Generate code coverage\n      run: |\n        cargo install cargo-tarpaulin\n        cargo tarpaulin --verbose --all-features --workspace --timeout 120 --out Xml\n    \n    - name: Upload coverage to Codecov\n      uses: codecov/codecov-action@v3"@ } else { ""@ }
}

/// The performance test step of the CI workflow, when performance tests are on.
pub open spec fn performance_step(on: bool) -> Seq<char> {
    if on { "    - name: Run performance tests\n      run: cargo test --release --test '*perf*' --all-features"@ } else { ""@ }
}
/// The CI workflow of GitHub Actions up to its performance-test step: the
/// triggers, environment and test job.
pub open spec fn ci_workflow_head(c: CICDConfig) -> Seq<char> {
    "name: CI\n\non:\n  push:\n    branches: "@
        + json_text_list(strs(c.triggers.branch_filters@))
        + "\n  pull_request:\n    branches: "@
        + json_text_list(strs(c.triggers.branch_filters@))
        + "\n\nenv:\n"@
        + join_lines(ci_env_lines(c.environment_variables@))
        + "\n\njobs:\n  test:\n    name: Test\n    runs-on: ${{ matrix.os }}\n    strategy:\n      matrix:\n        os: "@
        + json_text_list(strs(c.build_environment.os@))
        + "\n        rust: [\""@
        + c.build_environment.rust_version@
        + "\"]\n    \n    steps:\n    - uses: actions/checkout@v4\n    \n    - name: Install Rust\n      uses: dtolnay/rust-toolchain@stable\n      with:\n        toolchain: ${{ matrix.rust }}\n        components: rustfmt, clippy\n    \n    - name: Cache cargo registry\n      uses: actions/cache@v3\n      with:\n        path: ~/.cargo/registry\n        key: ${{ runner.os }}-cargo-registry-${{ hashFiles('**/Cargo.lock') }}\n    \n    - name: Cache cargo index\n      uses: actions/cache@v3\n      with:\n        path: ~/.cargo/git\n        key: ${{ runner.os }}-cargo-index-${{ hashFiles('**/Cargo.lock') }}\n    \n    - name: Cache cargo build\n      uses: actions/cache@v3\n      with:\n        path: target\n        key: ${{ runner.os }}-cargo-build-target-${{ hashFiles('**/Cargo.lock') }}\n    \n    - name: Check formatting\n      run: cargo fmt --all -- --check\n    \n    - name: Run clippy\n      run: cargo clippy --all-targets --all-features -- -D warnings\n    \n    - name: Run tests\n      run: cargo test --all-features --workspace\n      timeout-minutes: "@
        + decimal(c.test_config.timeout_minutes as nat)
        + "\n    \n    "@
        + coverage_steps(c.test_config.coverage_enabled)
        + "\n    \n    - name: Run integration tests\n      if: ${{ matrix.rust == '"@
        + c.build_environment.rust_version@
        + "' && matrix.os == 'ubuntu-latest' }}\n      run: cargo test --test '*' --all-features\n    \n    "@
}

/// The security job that ends the CI workflow.
pub open spec fn ci_security_job() -> Seq<char> {
    "\n\n  security:\n    name: Security Audit\n    runs-on: ubuntu-latest\n    steps:\n    - uses: actions/checkout@v4\n    - uses: rustsec/audit-check@v1.4.1\n      with:\n        token: ${{ secrets.GITHUB_TOKEN }}\n"@
}

/// The CI workflow of GitHub Actions.
pub open spec fn github_ci_workflow(c: CICDConfig) -> Seq<char> {
    ci_workflow_head(c)
        + performance_step(c.test_config.performance_tests)
        + ci_security_job()
}
/// The CD workflow of GitHub Actions.
pub open spec fn github_cd_workflow(c: CICDConfig) -> Seq<char> {
    "name: CD\n\non:\n  push:\n    branches:\n      - main\n      - develop\n  workflow_run:\n    workflows: [\"CI\"]\n    types:\n      - completed\n\njobs:\n  build-and-push:\n    name: Build and Push Docker Image\n    runs-on: ubuntu-latest\n    if: ${{ github.event.workflow_run.conclusion == 'success' }}\n    \n    steps:\n    - uses: actions/checkout@v4\n    \n    - name: Set up Docker Buildx\n      uses: docker/setup-buildx-action@v3\n    \n    - name: Login to Container Registry\n      uses: docker/login-action@v3\n      with:\n        registry: ${{ secrets.REGISTRY_URL }}\n        username: ${{ secrets.REGISTRY_USERNAME }}\n        password: ${{ secrets.REGISTRY_PASSWORD }}\n    \n    - name: Extract metadata\n      id: meta\n      uses: docker/metadata-action@v5\n      with:\n        images: "@
        + c.deployment_config.docker.registry@
        + "/"@
        + c.deployment_config.docker.image_name@
        + "\n        tags: |\n          type=ref,event=branch\n          type=ref,event=pr\n          type=sha\n    \n    - name: Build and push\n      uses: docker/build-push-action@v5\n      with:\n        context: .\n        platforms: "@
        + join_sep(strs(c.deployment_config.docker.platforms@), ","@)
        + "\n        push: true\n        tags: ${{ steps.meta.outputs.tags }}\n        labels: ${{ steps.meta.outputs.labels }}\n        cache-from: type=gha\n        cache-to: type=gha,mode=max\n\n  deploy-staging:\n    name: Deploy to Staging\n    runs-on: ubuntu-latest\n    needs: build-and-push\n    if: github.ref == 'refs/heads/develop'\n    environment: staging\n    \n    steps:\n    - uses: actions/checkout@v4\n    \n    - name: Deploy to Kubernetes\n      run: |\n        echo \"Deploying to staging environment\"\n        # kubectl apply -f k8s/staging/\n    \n  deploy-production:\n    name: Deploy to Production\n    runs-on: ubuntu-latest\n    needs: build-and-push\n    if: github.ref == 'refs/heads/main'\n    environment: production\n    \n    steps:\n    - uses: actions/checkout@v4\n    \n    - name: Deploy to Kubernetes\n      run: |\n        echo \"Deploying to production environment\"\n        # kubectl apply -f k8s/production/\n"@
}
/// The GitLab CI file.
pub open spec fn gitlab_ci_file(c: CICDConfig) -> Seq<char> {
    "stages:\n  - test\n  - build\n  - deploy\n\nvariables:\n  CARGO_HOME: $CI_PROJECT_DIR/.cargo\n  RUST_VERSION: \""@
        + c.build_environment.rust_version@
        + "\"\n\ncache:\n  paths:\n    - .cargo/\n    - target/\n\nbefore_script:\n  - apt-get update -qq && apt-get install -y -qq git\n  - curl --proto '=https' --tlsv1.2 -sSf https://sh.rustup.rs | sh -s -- -y\n  - source ~/.cargo/env\n  - rustup default $RUST_VERSION\n\ntest:\n  stage: test\n  script:\n    - cargo fmt --all -- --check\n    - cargo clippy --all-targets --all-features -- -D warnings\n    - cargo test --all-features --workspace\n  coverage: '/^\\d+\\.\\d+% coverage/'\n  artifacts:\n    reports:\n      coverage_report:\n        coverage_format: cobertura\n        path: coverage.xml\n\nbuild:\n  stage: build\n  script:\n    - cargo build --release\n  artifacts:\n    paths:\n      - target/release/agentx-core\n    expire_in: 1 week\n\ndocker-build:\n  stage: build\n  image: docker:latest\n  services:\n    - docker:dind\n  script:\n    - docker build -t $CI_REGISTRY_IMAGE:$CI_COMMIT_SHA .\n    - docker push $CI_REGISTRY_IMAGE:$CI_COMMIT_SHA\n\ndeploy-staging:\n  stage: deploy\n  script:\n    - echo \"Deploying to staging\"\n  environment:\n    name: staging\n  only:\n    - develop\n\ndeploy-production:\n  stage: deploy\n  script:\n    - echo \"Deploying to production\"\n  environment:\n    name: production\n  only:\n    - main\n  when: manual\n"@
}
/// A pipeline file that does not depend on the configuration.
pub open spec fn release_workflow_text() -> Seq<char> {
    "name: Release\n\non:\n  push:\n    tags:\n      - 'v*'\n\njobs:\n  create-release:\n    name: Create Release\n    runs-on: ubuntu-latest\n    \n    steps:\n    - uses: actions/checkout@v4\n    \n    - name: Create Release\n      uses: actions/create-release@v1\n      env:\n        GITHUB_TOKEN: ${{ secrets.GITHUB_TOKEN }}\n      with:\n        tag_name: ${{ github.ref }}\n        release_name: Release ${{ github.ref }}\n        draft: false\n        prerelease: false\n\n  build-binaries:\n    name: Build Binaries\n    runs-on: ${{ matrix.os }}\n    strategy:\n      matrix:\n        include:\n          - os: ubuntu-latest\n            target: x86_64-unknown-linux-gnu\n          - os: windows-latest\n            target: x86_64-pc-windows-msvc\n          - os: macos-latest\n            target: x86_64-apple-darwin\n          - os: macos-latest\n            target: aarch64-apple-darwin\n    \n    steps:\n    - uses: actions/checkout@v4\n    \n    - name: Install Rust\n      uses: dtolnay/rust-toolchain@stable\n      with:\n        targets: ${{ matrix.target }}\n    \n    - name: Build\n      run: cargo build --release --target ${{ matrix.target }}\n    \n    - name: Package\n      shell: bash\n      run: |\n        cd target/${{ matrix.target }}/release\n        if [[ \"${{ matrix.os }}\" == \"windows-latest\" ]]; then\n          7z a ../../../agentx-${{ matrix.target }}.zip agentx-core.exe\n        else\n          tar czvf ../../../agentx-${{ matrix.target }}.tar.gz agentx-core\n        fi\n    \n    - name: Upload Release Asset\n      uses: actions/upload-release-asset@v1\n      env:\n        GITHUB_TOKEN: ${{ secrets.GITHUB_TOKEN }}\n      with:\n        upload_url: ${{ needs.create-release.outputs.upload_url }}\n        asset_path: ./agentx-${{ matrix.target }}.${{ matrix.os == 'windows-latest' && 'zip' || 'tar.gz' }}\n        asset_name: agentx-${{ matrix.target }}.${{ matrix.os == 'windows-latest' && 'zip' || 'tar.gz' }}\n        asset_content_type: application/octet-stream\n"@
}
/// A pipeline file that does not depend on the configuration.
pub open spec fn jenkinsfile_text() -> Seq<char> {
    "pipeline {\n    agent any\n    \n    environment {\n        CARGO_HOME = \"${WORKSPACE}/.cargo\"\n        PATH = \"${CARGO_HOME}/bin:${PATH}\"\n    }\n    \n    stages {\n        stage('Setup') {\n            steps {\n                sh 'curl --proto \"=https\" --tlsv1.2 -sSf https://sh.rustup.rs | sh -s -- -y'\n                sh 'source ~/.cargo/env'\n            }\n        }\n        \n        stage('Test') {\n            steps {\n                sh 'cargo fmt --all -- --check'\n                sh 'cargo clippy --all-targets --all-features -- -D warnings'\n                sh 'cargo test --all-features --workspace'\n            }\n        }\n        \n        stage('Build') {\n            steps {\n                sh 'cargo build --release'\n            }\n        }\n        \n        stage('Docker Build') {\n            steps {\n                script {\n                    def image = docker.build(\"agentx/core:${env.BUILD_ID}\")\n                    docker.withRegistry('https://registry.hub.docker.com', 'docker-hub-credentials') {\n                        image.push()\n                        image.push(\"latest\")\n                    }\n                }\n            }\n        }\n        \n        stage('Deploy') {\n            when {\n                branch 'main'\n            }\n            steps {\n                sh 'kubectl apply -f k8s/'\n            }\n        }\n    }\n    \n    post {\n        always {\n            cleanWs()\n        }\n    }\n}\n"@
}
/// A pipeline file that does not depend on the configuration.
pub open spec fn azure_pipeline_text() -> Seq<char> {
    "trigger:\n- main\n- develop\n\npool:\n  vmImage: 'ubuntu-latest'\n\nvariables:\n  rustVersion: '1.75'\n\nstages:\n- stage: Test\n  jobs:\n  - job: Test\n    steps:\n    - script: |\n        curl --proto '=https' --tlsv1.2 -sSf https://sh.rustup.rs | sh -s -- -y\n        source ~/.cargo/env\n        rustup default $(rustVersion)\n      displayName: 'Install Rust'\n    \n    - script: |\n        cargo fmt --all -- --check\n        cargo clippy --all-targets --all-features -- -D warnings\n        cargo test --all-features --workspace\n      displayName: 'Test'\n\n- stage: Build\n  jobs:\n  - job: Build\n    steps:\n    - script: cargo build --release\n      displayName: 'Build'\n    \n    - task: Docker@2\n      displayName: 'Build and Push Docker Image'\n      inputs:\n        command: 'buildAndPush'\n        repository: 'agentx/core'\n        dockerfile: 'Dockerfile'\n        tags: |\n          $(Build.BuildId)\n          latest\n\n- stage: Deploy\n  condition: and(succeeded(), eq(variables['Build.SourceBranch'], 'refs/heads/main'))\n  jobs:\n  - deployment: Deploy\n    environment: 'production'\n    strategy:\n      runOnce:\n        deploy:\n          steps:\n          - script: echo \"Deploying to production\"\n            displayName: 'Deploy'\n"@
}
/// A pipeline file that does not depend on the configuration.
pub open spec fn circleci_config_text() -> Seq<char> {
    "version: 2.1\n\norbs:\n  rust: circleci/rust@1.6.0\n\nworkflows:\n  test-and-deploy:\n    jobs:\n      - test\n      - build:\n          requires:\n            - test\n      - deploy:\n          requires:\n            - build\n          filters:\n            branches:\n              only: main\n\njobs:\n  test:\n    docker:\n      - image: cimg/rust:1.75\n    steps:\n      - checkout\n      - rust/install\n      - run:\n          name: Format check\n          command: cargo fmt --all -- --check\n      - run:\n          name: Clippy\n          command: cargo clippy --all-targets --all-features -- -D warnings\n      - run:\n          name: Test\n          command: cargo test --all-features --workspace\n\n  build:\n    docker:\n      - image: cimg/rust:1.75\n    steps:\n      - checkout\n      - rust/install\n      - run:\n          name: Build\n          command: cargo build --release\n      - setup_remote_docker\n      - run:\n          name: Build Docker image\n          command: |\n            docker build -t agentx/core:$CIRCLE_SHA1 .\n            docker tag agentx/core:$CIRCLE_SHA1 agentx/core:latest\n\n  deploy:\n    docker:\n      - image: cimg/base:stable\n    steps:\n      - run:\n          name: Deploy\n          command: echo \"Deploying to production\"\n"@
}
/// The pipeline files for a configuration, by path.
pub open spec fn pipeline_files(c: CICDConfig) -> Seq<(Seq<char>, Seq<char>)> {
    match c.platform {
        CICDPlatform::GitHubActions => seq![
            (".github/workflows/ci.yml"@, github_ci_workflow(c)),
            (".github/workflows/cd.yml"@, github_cd_workflow(c)),
            (".github/workflows/release.yml"@, release_workflow_text())],
        CICDPlatform::GitLabCI => seq![(".gitlab-ci.yml"@, gitlab_ci_file(c))],
        CICDPlatform::Jenkins => seq![("Jenkinsfile"@, jenkinsfile_text())],
        CICDPlatform::AzureDevOps => seq![("azure-pipelines.yml"@, azure_pipeline_text())],
        CICDPlatform::CircleCI => seq![(".circleci/config.yml"@, circleci_config_text())],
    }
}

/// The view of a list of files.
pub open spec fn files_view(v: Seq<(String, String)>) -> Seq<(Seq<char>, Seq<char>)> {
    v.map_values(|f: (String, String)| (f.0@, f.1@))
}

/// Generates the pipeline files of a configuration.
pub struct CICDPipelineGenerator {
    config: CICDConfig,
}

impl CICDPipelineGenerator {
    /// The configuration.
    pub closed spec fn config_spec(&self) -> CICDConfig {
        self.config
    }

    /// A generator for `config`.
    pub fn new(config: CICDConfig) -> (r: Self)
        ensures
            r.config_spec() == config,
    {
        CICDPipelineGenerator { config }
    }

    /// The pipeline files of the configured platform, by path.
    pub fn generate_pipeline(&self) -> (r: Vec<(String, String)>)
        ensures
            files_view(r@) == pipeline_files(self.config_spec()),
    {
        let mut files: Vec<(String, String)> = Vec::new();
        match self.config.platform {
            CICDPlatform::GitHubActions => {
                files.push((String::from_str(".github/workflows/ci.yml"), self.generate_github_ci_workflow()));
                files.push((String::from_str(".github/workflows/cd.yml"), self.generate_github_cd_workflow()));
                files.push((String::from_str(".github/workflows/release.yml"), self.generate_github_release_workflow()));
            },
            CICDPlatform::GitLabCI => {
                files.push((String::from_str(".gitlab-ci.yml"), self.generate_gitlab_ci()));
            },
            CICDPlatform::Jenkins => {
                files.push((String::from_str("Jenkinsfile"), self.generate_jenkins()));
            },
            CICDPlatform::AzureDevOps => {
                files.push((String::from_str("azure-pipelines.yml"), self.generate_azure_devops()));
            },
            CICDPlatform::CircleCI => {
                files.push((String::from_str(".circleci/config.yml"), self.generate_circleci()));
            },
        }
        assert(files_view(files@) =~= pipeline_files(self.config_spec()));
        files
    }

    fn ci_env_text(&self) -> (r: String)
        ensures
            r@ == join_lines(ci_env_lines(self.config.environment_variables@)),
    {
        let env = &self.config.environment_variables;
        let ghost want = ci_env_lines(env@);
        let mut lines: Vec<String> = Vec::new();
        let mut i: usize = 0;
        while i < env.len()
            invariant
                i <= env@.len(),
                want == ci_env_lines(env@),
                lines@.len() == i,
                forall|j: int| 0 <= j < i ==> #[trigger] lines@[j]@ == want[j],
            decreases env@.len() - i,
        {
            let mut s = String::from_str("  ");
            s.append(env[i].0.as_str());
            s.append(": ");
            s.append(env[i].1.as_str());
            lines.push(s);
            i = i + 1;
        }
        assert(lines@.map_values(|s: String| s@) =~= want);
        join_line_list(&lines)
    }

    /// The CI workflow of GitHub Actions.
    pub fn generate_github_ci_workflow(&self) -> (r: String)
        ensures
            r@ == github_ci_workflow(self.config_spec()),
    {
        let branches = json_list(&self.config.triggers.branch_filters);
        let env = self.ci_env_text();
        let os = json_list(&self.config.build_environment.os);
        let timeout = decimal_string(self.config.test_config.timeout_minutes as u64);
        let coverage = if self.config.test_config.coverage_enabled { "    - name: Generate code coverage\n      run: |\n        cargo install cargo-tarpaulin\n        cargo tarpaulin --verbose --all-features --workspace --timeout 120 --out Xml\n    \n    - name: Upload coverage to Codecov\n      uses: codecov/codecov-action@v3" } else { "" };
        let performance = if self.config.test_config.performance_tests { "    - name: Run performance tests\n      run: cargo test --release --test '*perf*' --all-features" } else { "" };
        let mut s = String::from_str("name: CI\n\non:\n  push:\n    branches: ");
        s.append(branches.as_str());
        s.append("\n  pull_request:\n    branches: ");
        s.append(branches.as_str());
        s.append("\n\nenv:\n");
        s.append(env.as_str());
        s.append("\n\njobs:\n  test:\n    name: Test\n    runs-on: ${{ matrix.os }}\n    strategy:\n      matrix:\n        os: ");
        s.append(os.as_str());
        s.append("\n        rust: [\"");
        s.append(self.config.build_environment.rust_version.as_str());
        s.append("\"]\n    \n    steps:\n    - uses: actions/checkout@v4\n    \n    - name: Install Rust\n      uses: dtolnay/rust-toolchain@stable\n      with:\n        toolchain: ${{ matrix.rust }}\n        components: rustfmt, clippy\n    \n    - name: Cache cargo registry\n      uses: actions/cache@v3\n      with:\n        path: ~/.cargo/registry\n        key: ${{ runner.os }}-cargo-registry-${{ hashFiles('**/Cargo.lock') }}\n    \n    - name: Cache cargo index\n      uses: actions/cache@v3\n      with:\n        path: ~/.cargo/git\n        key: ${{ runner.os }}-cargo-index-${{ hashFiles('**/Cargo.lock') }}\n    \n    - name: Cache cargo build\n      uses: actions/cache@v3\n      with:\n        path: target\n        key: ${{ runner.os }}-cargo-build-target-${{ hashFiles('**/Cargo.lock') }}\n    \n    - name: Check formatting\n      run: cargo fmt --all -- --check\n    \n    - name: Run clippy\n      run: cargo clippy --all-targets --all-features -- -D warnings\n    \n    - name: Run tests\n      run: cargo test --all-features --workspace\n      timeout-minutes: ");
        s.append(timeout.as_str());
        s.append("\n    \n    ");
        s.append(coverage);
        s.append("\n    \n    - name: Run integration tests\n      if: ${{ matrix.rust == '");
        s.append(self.config.build_environment.rust_version.as_str());
        s.append("' && matrix.os == 'ubuntu-latest' }}\n      run: cargo test --test '*' --all-features\n    \n    ");
        s.append(performance);
        s.append("\n\n  security:\n    name: Security Audit\n    runs-on: ubuntu-latest\n    steps:\n    - uses: actions/checkout@v4\n    - uses: rustsec/audit-check@v1.4.1\n      with:\n        token: ${{ secrets.GITHUB_TOKEN }}\n");
        s
    }

    /// The CD workflow of GitHub Actions.
    pub fn generate_github_cd_workflow(&self) -> (r: String)
        ensures
            r@ == github_cd_workflow(self.config_spec()),
    {
        let platforms = join_with(&self.config.deployment_config.docker.platforms, ",");
        let mut s = String::from_str("name: CD\n\non:\n  push:\n    branches:\n      - main\n      - develop\n  workflow_run:\n    workflows: [\"CI\"]\n    types:\n      - completed\n\njobs:\n  build-and-push:\n    name: Build and Push Docker Image\n    runs-on: ubuntu-latest\n    if: ${{ github.event.workflow_run.conclusion == 'success' }}\n    \n    steps:\n    - uses: actions/checkout@v4\n    \n    - name: Set up Docker Buildx\n      uses: docker/setup-buildx-action@v3\n    \n    - name: Login to Container Registry\n      uses: docker/login-action@v3\n      with:\n        registry: ${{ secrets.REGISTRY_URL }}\n        username: ${{ secrets.REGISTRY_USERNAME }}\n        password: ${{ secrets.REGISTRY_PASSWORD }}\n    \n    - name: Extract metadata\n      id: meta\n      uses: docker/metadata-action@v5\n      with:\n        images: ");
        s.append(self.config.deployment_config.docker.registry.as_str());
        s.append("/");
        s.append(self.config.deployment_config.docker.image_name.as_str());
        s.append("\n        tags: |\n          type=ref,event=branch\n          type=ref,event=pr\n          type=sha\n    \n    - name: Build and push\n      uses: docker/build-push-action@v5\n      with:\n        context: .\n        platforms: ");
        s.append(platforms.as_str());
        s.append("\n        push: true\n        tags: ${{ steps.meta.outputs.tags }}\n        labels: ${{ steps.meta.outputs.labels }}\n        cache-from: type=gha\n        cache-to: type=gha,mode=max\n\n  deploy-staging:\n    name: Deploy to Staging\n    runs-on: ubuntu-latest\n    needs: build-and-push\n    if: github.ref == 'refs/heads/develop'\n    environment: staging\n    \n    steps:\n    - uses: actions/checkout@v4\n    \n    - name: Deploy to Kubernetes\n      run: |\n        echo \"Deploying to staging environment\"\n        # kubectl apply -f k8s/staging/\n    \n  deploy-production:\n    name: Deploy to Production\n    runs-on: ubuntu-latest\n    needs: build-and-push\n    if: github.ref == 'refs/heads/main'\n    environment: production\n    \n    steps:\n    - uses: actions/checkout@v4\n    \n    - name: Deploy to Kubernetes\n      run: |\n        echo \"Deploying to production environment\"\n        # kubectl apply -f k8s/production/\n");
        s
    }

    /// The release workflow of GitHub Actions.
    pub fn generate_github_release_workflow(&self) -> (r: String)
        ensures
            r@ == release_workflow_text(),
    {
        String::from_str("name: Release\n\non:\n  push:\n    tags:\n      - 'v*'\n\njobs:\n  create-release:\n    name: Create Release\n    runs-on: ubuntu-latest\n    \n    steps:\n    - uses: actions/checkout@v4\n    \n    - name: Create Release\n      uses: actions/create-release@v1\n      env:\n        GITHUB_TOKEN: ${{ secrets.GITHUB_TOKEN }}\n      with:\n        tag_name: ${{ github.ref }}\n        release_name: Release ${{ github.ref }}\n        draft: false\n        prerelease: false\n\n  build-binaries:\n    name: Build Binaries\n    runs-on: ${{ matrix.os }}\n    strategy:\n      matrix:\n        include:\n          - os: ubuntu-latest\n            target: x86_64-unknown-linux-gnu\n          - os: windows-latest\n            target: x86_64-pc-windows-msvc\n          - os: macos-latest\n            target: x86_64-apple-darwin\n          - os: macos-latest\n            target: aarch64-apple-darwin\n    \n    steps:\n    - uses: actions/checkout@v4\n    \n    - name: Install Rust\n      uses: dtolnay/rust-toolchain@stable\n      with:\n        targets: ${{ matrix.target }}\n    \n    - name: Build\n      run: cargo build --release --target ${{ matrix.target }}\n    \n    - name: Package\n      shell: bash\n      run: |\n        cd target/${{ matrix.target }}/release\n        if [[ \"${{ matrix.os }}\" == \"windows-latest\" ]]; then\n          7z a ../../../agentx-${{ matrix.target }}.zip agentx-core.exe\n        else\n          tar czvf ../../../agentx-${{ matrix.target }}.tar.gz agentx-core\n        fi\n    \n    - name: Upload Release Asset\n      uses: actions/upload-release-asset@v1\n      env:\n        GITHUB_TOKEN: ${{ secrets.GITHUB_TOKEN }}\n      with:\n        upload_url: ${{ needs.create-release.outputs.upload_url }}\n        asset_path: ./agentx-${{ matrix.target }}.${{ matrix.os == 'windows-latest' && 'zip' || 'tar.gz' }}\n        asset_name: agentx-${{ matrix.target }}.${{ matrix.os == 'windows-latest' && 'zip' || 'tar.gz' }}\n        asset_content_type: application/octet-stream\n")
    }

    /// The GitLab CI file.
    pub fn generate_gitlab_ci(&self) -> (r: String)
        ensures
            r@ == gitlab_ci_file(self.config_spec()),
    {
        let mut s = String::from_str("stages:\n  - test\n  - build\n  - deploy\n\nvariables:\n  CARGO_HOME: $CI_PROJECT_DIR/.cargo\n  RUST_VERSION: \"");
        s.append(self.config.build_environment.rust_version.as_str());
        s.append("\"\n\ncache:\n  paths:\n    - .cargo/\n    - target/\n\nbefore_script:\n  - apt-get update -qq && apt-get install -y -qq git\n  - curl --proto '=https' --tlsv1.2 -sSf https://sh.rustup.rs | sh -s -- -y\n  - source ~/.cargo/env\n  - rustup default $RUST_VERSION\n\ntest:\n  stage: test\n  script:\n    - cargo fmt --all -- --check\n    - cargo clippy --all-targets --all-features -- -D warnings\n    - cargo test --all-features --workspace\n  coverage: '/^\\d+\\.\\d+% coverage/'\n  artifacts:\n    reports:\n      coverage_report:\n        coverage_format: cobertura\n        path: coverage.xml\n\nbuild:\n  stage: build\n  script:\n    - cargo build --release\n  artifacts:\n    paths:\n      - target/release/agentx-core\n    expire_in: 1 week\n\ndocker-build:\n  stage: build\n  image: docker:latest\n  services:\n    - docker:dind\n  script:\n    - docker build -t $CI_REGISTRY_IMAGE:$CI_COMMIT_SHA .\n    - docker push $CI_REGISTRY_IMAGE:$CI_COMMIT_SHA\n\ndeploy-staging:\n  stage: deploy\n  script:\n    - echo \"Deploying to staging\"\n  environment:\n    name: staging\n  only:\n    - develop\n\ndeploy-production:\n  stage: deploy\n  script:\n    - echo \"Deploying to production\"\n  environment:\n    name: production\n  only:\n    - main\n  when: manual\n");
        s
    }

    /// The Jenkinsfile.
    pub fn generate_jenkins(&self) -> (r: String)
        ensures
            r@ == jenkinsfile_text(),
    {
        String::from_str("pipeline {\n    agent any\n    \n    environment {\n        CARGO_HOME = \"${WORKSPACE}/.cargo\"\n        PATH = \"${CARGO_HOME}/bin:${PATH}\"\n    }\n    \n    stages {\n        stage('Setup') {\n            steps {\n                sh 'curl --proto \"=https\" --tlsv1.2 -sSf https://sh.rustup.rs | sh -s -- -y'\n                sh 'source ~/.cargo/env'\n            }\n        }\n        \n        stage('Test') {\n            steps {\n                sh 'cargo fmt --all -- --check'\n                sh 'cargo clippy --all-targets --all-features -- -D warnings'\n                sh 'cargo test --all-features --workspace'\n            }\n        }\n        \n        stage('Build') {\n            steps {\n                sh 'cargo build --release'\n            }\n        }\n        \n        stage('Docker Build') {\n            steps {\n                script {\n                    def image = docker.build(\"agentx/core:${env.BUILD_ID}\")\n                    docker.withRegistry('https://registry.hub.docker.com', 'docker-hub-credentials') {\n                        image.push()\n                        image.push(\"latest\")\n                    }\n                }\n            }\n        }\n        \n        stage('Deploy') {\n            when {\n                branch 'main'\n            }\n            steps {\n                sh 'kubectl apply -f k8s/'\n            }\n        }\n    }\n    \n    post {\n        always {\n            cleanWs()\n        }\n    }\n}\n")
    }

    /// The Azure DevOps pipeline.
    pub fn generate_azure_devops(&self) -> (r: String)
        ensures
            r@ == azure_pipeline_text(),
    {
        String::from_str("trigger:\n- main\n- develop\n\npool:\n  vmImage: 'ubuntu-latest'\n\nvariables:\n  rustVersion: '1.75'\n\nstages:\n- stage: Test\n  jobs:\n  - job: Test\n    steps:\n    - script: |\n        curl --proto '=https' --tlsv1.2 -sSf https://sh.rustup.rs | sh -s -- -y\n        source ~/.cargo/env\n        rustup default $(rustVersion)\n      displayName: 'Install Rust'\n    \n    - script: |\n        cargo fmt --all -- --check\n        cargo clippy --all-targets --all-features -- -D warnings\n        cargo test --all-features --workspace\n      displayName: 'Test'\n\n- stage: Build\n  jobs:\n  - job: Build\n    steps:\n    - script: cargo build --release\n      displayName: 'Build'\n    \n    - task: Docker@2\n      displayName: 'Build and Push Docker Image'\n      inputs:\n        command: 'buildAndPush'\n        repository: 'agentx/core'\n        dockerfile: 'Dockerfile'\n        tags: |\n          $(Build.BuildId)\n          latest\n\n- stage: Deploy\n  condition: and(succeeded(), eq(variables['Build.SourceBranch'], 'refs/heads/main'))\n  jobs:\n  - deployment: Deploy\n    environment: 'production'\n    strategy:\n      runOnce:\n        deploy:\n          steps:\n          - script: echo \"Deploying to production\"\n            displayName: 'Deploy'\n")
    }

    /// The CircleCI configuration.
    pub fn generate_circleci(&self) -> (r: String)
        ensures
            r@ == circleci_config_text(),
    {
        String::from_str("version: 2.1\n\norbs:\n  rust: circleci/rust@1.6.0\n\nworkflows:\n  test-and-deploy:\n    jobs:\n      - test\n      - build:\n          requires:\n            - test\n      - deploy:\n          requires:\n            - build\n          filters:\n            branches:\n              only: main\n\njobs:\n  test:\n    docker:\n      - image: cimg/rust:1.75\n    steps:\n      - checkout\n      - rust/install\n      - run:\n          name: Format check\n          command: cargo fmt --all -- --check\n      - run:\n          name: Clippy\n          command: cargo clippy --all-targets --all-features -- -D warnings\n      - run:\n          name: Test\n          command: cargo test --all-features --workspace\n\n  build:\n    docker:\n      - image: cimg/rust:1.75\n    steps:\n      - checkout\n      - rust/install\n      - run:\n          name: Build\n          command: cargo build --release\n      - setup_remote_docker\n      - run:\n          name: Build Docker image\n          command: |\n            docker build -t agentx/core:$CIRCLE_SHA1 .\n            docker tag agentx/core:$CIRCLE_SHA1 agentx/core:latest\n\n  deploy:\n    docker:\n      - image: cimg/base:stable\n    steps:\n      - run:\n          name: Deploy\n          command: echo \"Deploying to production\"\n")
    }

}

fn texts2(a: &str, b: &str) -> (r: Vec<String>)
    ensures
        strs(r@) == seq![a@, b@],
{
    let mut v: Vec<String> = Vec::new();
    v.push(String::from_str(a));
    v.push(String::from_str(b));
    assert(strs(v@) =~= seq![a@, b@]);
    v
}

fn texts1(a: &str) -> (r: Vec<String>)
    ensures
        strs(r@) == seq![a@],
{
    let mut v: Vec<String> = Vec::new();
    v.push(String::from_str(a));
    assert(strs(v@) =~= seq![a@]);
    v
}

impl Default for CICDConfig {
    fn default() -> (r: Self)
        ensures
            r.platform == CICDPlatform::GitHubActions,
            r.project_name@ == "agentx"@,
            r.build_environment.rust_version@ == "1.75"@,
            strs(r.build_environment.os@) == seq!["ubuntu-latest"@],
            strs(r.build_environment.arch@) == seq!["x86_64"@],
            r.build_environment.cache_enabled,
            strs(r.build_environment.build_tools@) == seq!["cargo"@],
            r.test_config.unit_tests,
            r.test_config.integration_tests,
            !r.test_config.performance_tests,
            r.test_config.coverage_enabled,
            r.test_config.coverage_threshold_percent == 80,
            r.test_config.timeout_minutes == 30,
            r.deployment_config.environments@.len() == 2,
            r.deployment_config.environments@[0].name@ == "staging"@,
            r.deployment_config.environments@[0].branch@ == "develop"@,
            r.deployment_config.environments@[0].auto_deploy,
            !r.deployment_config.environments@[0].approval_required,
            r.deployment_config.environments@[0].env_vars@ == Map::<String, String>::empty(),
            r.deployment_config.environments@[1].name@ == "production"@,
            r.deployment_config.environments@[1].branch@ == "main"@,
            !r.deployment_config.environments@[1].auto_deploy,
            r.deployment_config.environments@[1].approval_required,
            r.deployment_config.environments@[1].env_vars@ == Map::<String, String>::empty(),
            r.deployment_config.docker.image_name@ == "agentx/core"@,
            r.deployment_config.docker.registry@ == "ghcr.io"@,
            r.deployment_config.docker.build_args@ == Map::<String, String>::empty(),
            r.deployment_config.docker.multi_platform,
            strs(r.deployment_config.docker.platforms@) == seq!["linux/amd64"@, "linux/arm64"@],
            r.deployment_config.kubernetes is None,
            r.deployment_config.artifact_registry.registry_type@ == "docker"@,
            r.deployment_config.artifact_registry.url@ == "ghcr.io"@,
            r.deployment_config.artifact_registry.auth_config@ == "github"@,
            r.environment_variables@.len() == 0,
            strs(r.secrets@) == seq!["REGISTRY_USERNAME"@, "REGISTRY_PASSWORD"@],
            r.triggers.on_push,
            r.triggers.on_pull_request,
            r.triggers.on_schedule is None,
            r.triggers.on_tag,
            strs(r.triggers.branch_filters@) == seq!["main"@, "develop"@],
    {
        let mut environments: Vec<Environment> = Vec::new();
        environments.push(Environment {
            name: String::from_str("staging"),
            branch: String::from_str("develop"),
            auto_deploy: true,
            approval_required: false,
            env_vars: HashMap::new(),
        });
        environments.push(Environment {
            name: String::from_str("production"),
            branch: String::from_str("main"),
            auto_deploy: false,
            approval_required: true,
            env_vars: HashMap::new(),
        });
        CICDConfig {
            platform: CICDPlatform::GitHubActions,
            project_name: String::from_str("agentx"),
            build_environment: BuildEnvironment {
                rust_version: String::from_str("1.75"),
                os: texts1("ubuntu-latest"),
                arch: texts1("x86_64"),
                cache_enabled: true,
                build_tools: texts1("cargo"),
            },
            test_config: TestConfig {
                unit_tests: true,
                integration_tests: true,
                performance_tests: false,
                coverage_enabled: true,
                coverage_threshold_percent: 80,
                timeout_minutes: 30,
            },
            deployment_config: DeploymentConfig {
                environments,
                docker: DockerBuildConfig {
                    image_name: String::from_str("agentx/core"),
                    registry: String::from_str("ghcr.io"),
                    build_args: HashMap::new(),
                    multi_platform: true,
                    platforms: texts2("linux/amd64", "linux/arm64"),
                },
                kubernetes: None,
                artifact_registry: ArtifactRegistry {
                    registry_type: String::from_str("docker"),
                    url: String::from_str("ghcr.io"),
                    auth_config: String::from_str("github"),
                },
            },
            environment_variables: Vec::new(),
            secrets: texts2("REGISTRY_USERNAME", "REGISTRY_PASSWORD"),
            triggers: TriggerConfig {
                on_push: true,
                on_pull_request: true,
                on_schedule: None,
                on_tag: true,
                branch_filters: texts2("main", "develop"),
            },
        }
    }
}

/// `c` with performance tests switched on or off.
pub open spec fn with_performance_tests(c: CICDConfig, on: bool) -> CICDConfig {
    CICDConfig { test_config: TestConfig { performance_tests: on, ..c.test_config }, ..c }
}

/// Switching performance tests on adds exactly the performance-test step to
/// the CI workflow: the workflow with them is the workflow without them with
/// that step put in at one place, and nothing else differs.
pub proof fn lemma_ci_performance_step(c: CICDConfig)
    ensures
        exists|before: Seq<char>, after: Seq<char>|
            github_ci_workflow(with_performance_tests(c, false)) == before + after
            && github_ci_workflow(with_performance_tests(c, true)) == before
                + "    - name: Run performance tests\n      run: cargo test --release --test '*perf*' --all-features"@
                + after,
{
    let off = with_performance_tests(c, false);
    let on = with_performance_tests(c, true);
    let before = ci_workflow_head(off);
    let after = ci_security_job();
    assert(ci_workflow_head(on) == before);
    reveal_strlit("");
    assert(before + ""@ =~= before);
    assert(github_ci_workflow(off) == before + after);
    assert(github_ci_workflow(on) == before
        + "    - name: Run performance tests\n      run: cargo test --release --test '*perf*' --all-features"@
        + after);
}

} // verus!
