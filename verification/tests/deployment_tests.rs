use agentx::cloud_native::{
    CloudNativeManager, DockerConfig, DockerDeploymentManager, IngressConfig, KubernetesConfig,
    KubernetesDeploymentManager, PortMapping, ResourceRequirements, VolumeMapping,
};

fn k8s(replicas: u32, tag: &str) -> KubernetesConfig {
    KubernetesConfig {
        namespace: "agentx".to_string(),
        deployment_name: "agentx-core".to_string(),
        service_name: "agentx-service".to_string(),
        replicas,
        image: "agentx/core".to_string(),
        image_tag: tag.to_string(),
        resources: ResourceRequirements::default(),
        env_vars: vec![("RUST_LOG".to_string(), "info".to_string())],
        config_maps: vec![],
        secrets: vec![],
        ingress: None,
    }
}

fn docker() -> DockerConfig {
    DockerConfig {
        image_name: "agentx/core".to_string(),
        tag: "latest".to_string(),
        dockerfile_path: "Dockerfile".to_string(),
        build_context: ".".to_string(),
        build_args: vec![],
        ports: vec![PortMapping { host_port: 50051, container_port: 50051, protocol: "tcp".to_string() }],
        volumes: vec![],
        environment: vec![],
    }
}

fn has_file(files: &[(String, String)], name: &str) -> bool {
    files.iter().any(|(n, _)| n == name)
}

#[test]
fn test_kubernetes_deployment() {
    let manager = KubernetesDeploymentManager::new(k8s(3, "latest"));
    let deployment_yaml = manager.generate_deployment_yaml();
    assert!(deployment_yaml.contains("agentx-core"));
    assert!(deployment_yaml.contains("replicas: 3"));
}

#[test]
fn test_docker_deployment() {
    let manager = DockerDeploymentManager::new(docker());
    let dockerfile = manager.generate_dockerfile();
    let compose = manager.generate_docker_compose();
    assert!(dockerfile.contains("FROM rust:1.75"));
    assert!(compose.contains("agentx-core"));
}

#[test]
fn test_cloud_native_manager() {
    let mut manager = CloudNativeManager::new();
    let mut config = k8s(2, "v1.0.0");
    config.env_vars = vec![];
    manager = manager.with_kubernetes(config);

    let files = manager.generate_deployment_files();
    assert!(has_file(&files, "deployment.yaml"));
    assert!(has_file(&files, "service.yaml"));

    let warnings = manager.validate_configuration();
    assert!(warnings.is_empty());
}

#[test]
fn deployment_carries_image_resources_and_environment() {
    let manager = KubernetesDeploymentManager::new(k8s(2, "test"));
    let yaml = manager.generate_deployment_yaml();
    assert!(yaml.contains("replicas: 2"));
    assert!(yaml.contains("agentx/core:test"));
    assert!(yaml.contains("RUST_LOG"));
    assert!(manager.generate_service_yaml().contains("agentx-service"));
    assert!(manager.generate_ingress_yaml().is_none());
}

#[test]
fn ingress_is_generated_when_configured() {
    let mut config = k8s(1, "latest");
    config.ingress = Some(IngressConfig {
        host: "agentx.example.com".to_string(),
        path: "/".to_string(),
        tls_enabled: true,
        cert_manager: true,
    });
    let manager = KubernetesDeploymentManager::new(config);
    let ingress = manager.generate_ingress_yaml().unwrap();
    assert!(ingress.contains("agentx.example.com"));
    assert!(ingress.contains("tls:"));
}

#[test]
fn compose_lists_ports_and_volumes() {
    let mut config = docker();
    config.ports.push(PortMapping { host_port: 8080, container_port: 8080, protocol: "tcp".to_string() });
    config.volumes.push(VolumeMapping { host_path: "./data".to_string(), container_path: "/app/data".to_string(), read_only: false });
    config.environment.push(("RUST_LOG".to_string(), "debug".to_string()));
    let manager = DockerDeploymentManager::new(config);
    let compose = manager.generate_docker_compose();
    assert!(compose.contains("50051:50051"));
    assert!(compose.contains("8080:8080"));
    assert!(compose.contains("./data:/app/data"));
}

#[test]
fn manager_with_docker_adds_its_files() {
    let manager = CloudNativeManager::new().with_kubernetes(k8s(2, "test")).with_docker(docker());
    let files = manager.generate_deployment_files();
    assert!(has_file(&files, "deployment.yaml"));
    assert!(has_file(&files, "Dockerfile"));
    assert!(has_file(&files, "docker-compose.yml"));
    assert!(CloudNativeManager::new().generate_deployment_files().is_empty());
}
