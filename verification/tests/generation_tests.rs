use std::collections::HashMap;

use agentx::cicd_pipeline::{
    ArtifactRegistry, BuildEnvironment, CICDConfig, CICDPipelineGenerator, CICDPlatform, DeploymentConfig,
    DockerBuildConfig, Environment, K8sDeployConfig, TestConfig, TriggerConfig,
};
use agentx::helm_charts::{AutoscalingConfig, Dependency, HelmChartConfig, HelmChartsGenerator, HelmValues, ImageConfig, Maintainer};

fn has_file(files: &[(String, String)], name: &str) -> bool {
    files.iter().any(|(n, _)| n == name)
}

fn file<'a>(files: &'a [(String, String)], name: &str) -> &'a str {
    files.iter().find(|(n, _)| n == name).map(|(_, c)| c.as_str()).unwrap()
}

#[test]
fn test_helm_charts_generation() {
    let config = HelmChartConfig {
        name: "agentx".to_string(),
        version: "1.0.0".to_string(),
        app_version: "1.0.0".to_string(),
        description: "AgentX - Universal AI Agent Framework".to_string(),
        keywords: vec!["ai".to_string(), "agent".to_string(), "framework".to_string(), "rust".to_string()],
        maintainers: vec![Maintainer {
            name: "AgentX Team".to_string(),
            email: "team@agentx.dev".to_string(),
            url: Some("https://agentx.dev".to_string()),
        }],
        dependencies: vec![Dependency {
            name: "postgresql".to_string(),
            version: "12.1.0".to_string(),
            repository: "https://charts.bitnami.com/bitnami".to_string(),
            condition: Some("postgresql.enabled".to_string()),
            tags: vec!["database".to_string()],
        }],
        default_values: HelmValues {
            replica_count: 2,
            image: ImageConfig {
                repository: "ghcr.io/agentx/core".to_string(),
                pull_policy: "IfNotPresent".to_string(),
                tag: "1.0.0".to_string(),
                pull_secrets: vec![],
            },
            autoscaling: AutoscalingConfig {
                enabled: true,
                min_replicas: 2,
                max_replicas: 10,
                target_cpu_utilization: 70,
                target_memory_utilization: Some(80),
            },
            ..Default::default()
        },
    };

    let generator = HelmChartsGenerator::new(config);

    let chart_yaml = generator.generate_chart_yaml();
    assert!(chart_yaml.contains("name: agentx"));
    assert!(chart_yaml.contains("version: 1.0.0"));
    assert!(chart_yaml.contains("appVersion: \"1.0.0\""));
    assert!(chart_yaml.contains("AgentX Team"));
    assert!(chart_yaml.contains("postgresql"));

    let values_yaml = generator.generate_values_yaml();
    assert!(values_yaml.contains("replicaCount: 2"));
    assert!(values_yaml.contains("repository: ghcr.io/agentx/core"));
    assert!(values_yaml.contains("tag: \"1.0.0\""));
    assert!(values_yaml.contains("enabled: true"));
    assert!(values_yaml.contains("minReplicas: 2"));
    assert!(values_yaml.contains("maxReplicas: 10"));

    let deployment_template = generator.generate_deployment_template();
    assert!(deployment_template.contains("apiVersion: apps/v1"));
    assert!(deployment_template.contains("kind: Deployment"));
    assert!(deployment_template.contains("{{ include \"agentx.fullname\" . }}"));
    assert!(deployment_template.contains("containerPort: 50051"));
    assert!(deployment_template.contains("livenessProbe:"));
    assert!(deployment_template.contains("readinessProbe:"));

    let service_template = generator.generate_service_template();
    assert!(service_template.contains("apiVersion: v1"));
    assert!(service_template.contains("kind: Service"));
    assert!(service_template.contains("{{ .Values.service.type }}"));

    let ingress_template = generator.generate_ingress_template();
    assert!(ingress_template.contains("{{- if .Values.ingress.enabled -}}"));
    assert!(ingress_template.contains("kind: Ingress"));

    let all_files = generator.generate_all_files();
    assert_eq!(all_files.len(), 8);
    for name in [
        "Chart.yaml",
        "values.yaml",
        "templates/deployment.yaml",
        "templates/service.yaml",
        "templates/ingress.yaml",
        "templates/_helpers.tpl",
        "templates/hpa.yaml",
        "templates/serviceaccount.yaml",
    ] {
        assert!(has_file(&all_files, name), "{}", name);
    }
}

fn github_config() -> CICDConfig {
    CICDConfig {
        platform: CICDPlatform::GitHubActions,
        project_name: "agentx".to_string(),
        build_environment: BuildEnvironment {
            rust_version: "1.75".to_string(),
            os: vec!["ubuntu-latest".to_string(), "windows-latest".to_string(), "macos-latest".to_string()],
            arch: vec!["x86_64".to_string(), "aarch64".to_string()],
            cache_enabled: true,
            build_tools: vec!["cargo".to_string()],
        },
        test_config: TestConfig {
            unit_tests: true,
            integration_tests: true,
            performance_tests: true,
            coverage_enabled: true,
            coverage_threshold_percent: 85,
            timeout_minutes: 45,
        },
        deployment_config: DeploymentConfig {
            environments: vec![
                Environment {
                    name: "staging".to_string(),
                    branch: "develop".to_string(),
                    auto_deploy: true,
                    approval_required: false,
                    env_vars: HashMap::new(),
                },
                Environment {
                    name: "production".to_string(),
                    branch: "main".to_string(),
                    auto_deploy: false,
                    approval_required: true,
                    env_vars: HashMap::new(),
                },
            ],
            docker: DockerBuildConfig {
                image_name: "agentx/core".to_string(),
                registry: "ghcr.io".to_string(),
                build_args: HashMap::new(),
                multi_platform: true,
                platforms: vec!["linux/amd64".to_string(), "linux/arm64".to_string()],
            },
            kubernetes: Some(K8sDeployConfig {
                cluster: "production-cluster".to_string(),
                namespace: "agentx-system".to_string(),
                helm_chart_path: "./helm/agentx".to_string(),
                values_files: vec!["values.yaml".to_string(), "values-prod.yaml".to_string()],
            }),
            artifact_registry: ArtifactRegistry {
                registry_type: "docker".to_string(),
                url: "ghcr.io".to_string(),
                auth_config: "github".to_string(),
            },
        },
        environment_variables: vec![("RUST_LOG".to_string(), "info".to_string())],
        secrets: vec!["REGISTRY_USERNAME".to_string(), "REGISTRY_PASSWORD".to_string(), "KUBECONFIG".to_string()],
        triggers: TriggerConfig {
            on_push: true,
            on_pull_request: true,
            on_schedule: Some("0 2 * * *".to_string()),
            on_tag: true,
            branch_filters: vec!["main".to_string(), "develop".to_string()],
        },
    }
}

#[test]
fn test_cicd_pipeline_generation() {
    let generator = CICDPipelineGenerator::new(github_config());
    let pipeline_files = generator.generate_pipeline();
    assert_eq!(pipeline_files.len(), 3);
    assert!(has_file(&pipeline_files, ".github/workflows/ci.yml"));
    assert!(has_file(&pipeline_files, ".github/workflows/cd.yml"));
    assert!(has_file(&pipeline_files, ".github/workflows/release.yml"));

    let ci_workflow = file(&pipeline_files, ".github/workflows/ci.yml");
    assert!(ci_workflow.contains("name: CI"));
    assert!(ci_workflow.contains("cargo fmt --all -- --check"));
    assert!(ci_workflow.contains("cargo clippy"));
    assert!(ci_workflow.contains("cargo test"));
    assert!(ci_workflow.contains("timeout-minutes: 45"));
    assert!(ci_workflow.contains("cargo-tarpaulin"));
    assert!(ci_workflow.contains("performance tests"));

    let cd_workflow = file(&pipeline_files, ".github/workflows/cd.yml");
    assert!(cd_workflow.contains("name: CD"));
    assert!(cd_workflow.contains("docker/build-push-action"));
    assert!(cd_workflow.contains("linux/amd64,linux/arm64"));
    assert!(cd_workflow.contains("environment: staging"));
    assert!(cd_workflow.contains("environment: production"));

    let release_workflow = file(&pipeline_files, ".github/workflows/release.yml");
    assert!(release_workflow.contains("name: Release"));
    assert!(release_workflow.contains("create-release"));
    assert!(release_workflow.contains("x86_64-unknown-linux-gnu"));
    assert!(release_workflow.contains("x86_64-pc-windows-msvc"));
    assert!(release_workflow.contains("x86_64-apple-darwin"));
}

#[test]
fn test_multiple_cicd_platforms() {
    let platforms = vec![
        (CICDPlatform::GitHubActions, ".github/workflows/ci.yml"),
        (CICDPlatform::GitLabCI, ".gitlab-ci.yml"),
        (CICDPlatform::Jenkins, "Jenkinsfile"),
        (CICDPlatform::AzureDevOps, "azure-pipelines.yml"),
        (CICDPlatform::CircleCI, ".circleci/config.yml"),
    ];
    for (platform, expected) in platforms {
        let config = CICDConfig { platform, ..Default::default() };
        let generator = CICDPipelineGenerator::new(config);
        let pipeline_files = generator.generate_pipeline();
        assert!(!pipeline_files.is_empty());
        assert!(has_file(&pipeline_files, expected), "{:?}", platform);
    }
}

#[test]
fn workflow_lists_are_json_arrays() {
    let mut config = CICDConfig::default();
    let ci = CICDPipelineGenerator::new(config.clone()).generate_github_ci_workflow();
    assert!(ci.contains("branches: [\"main\",\"develop\"]"));
    assert!(ci.contains("os: [\"ubuntu-latest\"]"));

    config.triggers.branch_filters = vec!["re\"lease\t1".to_string(), "x\u{1}".to_string()];
    let ci = CICDPipelineGenerator::new(config).generate_github_ci_workflow();
    assert!(ci.contains("branches: [\"re\\\"lease\\t1\",\"x\\u0001\"]"));
}
