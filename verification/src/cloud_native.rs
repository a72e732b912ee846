//! Cloud-native deployment: the configuration of Kubernetes, Docker and cloud
//! providers, and the deployment files generated from it.
use vstd::prelude::*;
use crate::text::{decimal, decimal_string, join_line_list, join_lines};

verus! {

/// Resources requested and allowed for a container.
#[derive(Debug, Clone)]
pub struct ResourceRequirements {
    /// CPU requested.
    pub cpu_request: String,
    /// CPU allowed.
    pub cpu_limit: String,
    /// Memory requested.
    pub memory_request: String,
    /// Memory allowed.
    pub memory_limit: String,
}

impl Default for ResourceRequirements {
    fn default() -> (r: Self)
        ensures
            r.cpu_request@ == "100m"@,
            r.cpu_limit@ == "500m"@,
            r.memory_request@ == "128Mi"@,
            r.memory_limit@ == "512Mi"@,
    {
        ResourceRequirements {
            cpu_request: String::from_str("100m"),
            cpu_limit: String::from_str("500m"),
            memory_request: String::from_str("128Mi"),
            memory_limit: String::from_str("512Mi"),
        }
    }
}

/// How the service is exposed outside the cluster.
#[derive(Debug, Clone)]
pub struct IngressConfig {
    /// Host name.
    pub host: String,
    /// Path prefix.
    pub path: String,
    /// Whether TLS is on.
    pub tls_enabled: bool,
    /// Whether cert-manager issues the certificate.
    pub cert_manager: bool,
}

/// A Kubernetes deployment. The environment is a list of distinct names with
/// their values.
#[derive(Debug, Clone)]
pub struct KubernetesConfig {
    /// Namespace.
    pub namespace: String,
    /// Name of the deployment.
    pub deployment_name: String,
    /// Name of the service.
    pub service_name: String,
    /// Replicas.
    pub replicas: u32,
    /// Image.
    pub image: String,
    /// Image tag.
    pub image_tag: String,
    /// Resources.
    pub resources: ResourceRequirements,
    /// Environment variables.
    pub env_vars: Vec<(String, String)>,
    /// Config maps mounted.
    pub config_maps: Vec<String>,
    /// Secrets mounted.
    pub secrets: Vec<String>,
    /// Ingress, if any.
    pub ingress: Option<IngressConfig>,
}

/// A port published by a container.
#[derive(Debug, Clone)]
pub struct PortMapping {
    /// Port on the host.
    pub host_port: u16,
    /// Port in the container.
    pub container_port: u16,
    /// Protocol.
    pub protocol: String,
}

/// A volume mounted into a container.
#[derive(Debug, Clone)]
pub struct VolumeMapping {
    /// Path on the host.
    pub host_path: String,
    /// Path in the container.
    pub container_path: String,
    /// Whether it is mounted read-only.
    pub read_only: bool,
}

/// A Docker deployment. Build arguments and environment are lists of distinct
/// names with their values.
#[derive(Debug, Clone)]
pub struct DockerConfig {
    /// Image name.
    pub image_name: String,
    /// Image tag.
    pub tag: String,
    /// Path of the Dockerfile.
    pub dockerfile_path: String,
    /// Build context.
    pub build_context: String,
    /// Build arguments.
    pub build_args: Vec<(String, String)>,
    /// Published ports.
    pub ports: Vec<PortMapping>,
    /// Mounted volumes.
    pub volumes: Vec<VolumeMapping>,
    /// Environment variables.
    pub environment: Vec<(String, String)>,
}

/// A cloud provider.
#[derive(Debug, Clone, Copy, PartialEq, Eq, Structural)]
pub enum CloudProvider {
    /// Amazon Web Services.
    AWS,
    /// Microsoft Azure.
    Azure,
    /// Google Cloud Platform.
    GCP,
    /// Alibaba Cloud.
    AliCloud,
    /// Tencent Cloud.
    TencentCloud,
    /// DigitalOcean.
    DigitalOcean,
    /// Linode.
    Linode,
}

/// Credentials for a cloud provider.
#[derive(Debug, Clone)]
pub struct CloudCredentials {
    /// Access key.
    pub access_key: Option<String>,
    /// Secret key.
    pub secret_key: Option<String>,
    /// Token.
    pub token: Option<String>,
    /// Service account.
    pub service_account: Option<String>,
}

/// A listener of a cloud load balancer.
#[derive(Debug, Clone)]
pub struct ListenerConfig {
    /// Port.
    pub port: u16,
    /// Protocol.
    pub protocol: String,
    /// TLS certificate, if any.
    pub ssl_cert: Option<String>,
}

/// A cloud load balancer.
#[derive(Debug, Clone)]
pub struct LoadBalancerConfig {
    /// Kind of load balancer.
    pub lb_type: String,
    /// Scheme, such as internet-facing.
    pub scheme: String,
    /// Listeners.
    pub listeners: Vec<ListenerConfig>,
}

/// Networking in a cloud.
#[derive(Debug, Clone)]
pub struct NetworkConfig {
    /// Virtual network.
    pub vpc_id: Option<String>,
    /// Subnets.
    pub subnet_ids: Vec<String>,
    /// Security groups.
    pub security_groups: Vec<String>,
    /// Load balancer, if any.
    pub load_balancer: Option<LoadBalancerConfig>,
}

/// A persistent volume.
#[derive(Debug, Clone)]
pub struct PersistentVolumeConfig {
    /// Name.
    pub name: String,
    /// Size.
    pub size: String,
    /// Storage class.
    pub storage_class: String,
    /// Access modes.
    pub access_modes: Vec<String>,
}

/// Object storage.
#[derive(Debug, Clone)]
pub struct ObjectStorageConfig {
    /// Bucket.
    pub bucket_name: String,
    /// Endpoint, if not the provider's default.
    pub endpoint: Option<String>,
    /// Region.
    pub region: String,
}

/// Storage in a cloud.
#[derive(Debug, Clone)]
pub struct StorageConfig {
    /// Persistent volumes.
    pub persistent_volumes: Vec<PersistentVolumeConfig>,
    /// Object storage, if any.
    pub object_storage: Option<ObjectStorageConfig>,
}

/// A cloud provider and how the deployment uses it.
#[derive(Debug, Clone)]
pub struct CloudProviderConfig {
    /// Provider.
    pub provider: CloudProvider,
    /// Region.
    pub region: String,
    /// Credentials.
    pub credentials: CloudCredentials,
    /// Networking.
    pub networking: NetworkConfig,
    /// Storage.
    pub storage: StorageConfig,
}

/// The line of the deployment's environment for one variable.
pub open spec fn env_var_line(name: Seq<char>, value: Seq<char>) -> Seq<char> {
    "        - name: "@ + name + "\n          value: \""@ + value + "\""@
}

/// The lines of the deployment's environment.
pub open spec fn env_var_lines(env: Seq<(String, String)>) -> Seq<Seq<char>> {
    env.map_values(|e: (String, String)| env_var_line(e.0@, e.1@))
}

/// The line of the compose file's environment for one variable.
pub open spec fn compose_env_line(name: Seq<char>, value: Seq<char>) -> Seq<char> {
    "      "@ + name + ": \""@ + value + "\""@
}

/// The lines of the compose file's environment.
pub open spec fn compose_env_lines(env: Seq<(String, String)>) -> Seq<Seq<char>> {
    env.map_values(|e: (String, String)| compose_env_line(e.0@, e.1@))
}

/// The line of the compose file for one published port.
pub open spec fn port_line(p: PortMapping) -> Seq<char> {
    "      - \""@ + decimal(p.host_port as nat) + ":"@ + decimal(p.container_port as nat) + "\""@
}

/// The line of the compose file for one volume.
pub open spec fn volume_line(v: VolumeMapping) -> Seq<char> {
    "      - \""@ + v.host_path@ + ":"@ + v.container_path@ + (if v.read_only { ":ro"@ } else { ""@ }) + "\""@
}

fn env_lines(env: &Vec<(String, String)>, compose: bool) -> (r: Vec<String>)
    ensures
        r@.map_values(|s: String| s@) == if compose { compose_env_lines(env@) } else { env_var_lines(env@) },
{
    let ghost want = if compose { compose_env_lines(env@) } else { env_var_lines(env@) };
    let mut out: Vec<String> = Vec::new();
    let mut i: usize = 0;
    while i < env.len()
        invariant
            i <= env@.len(),
            want == if compose { compose_env_lines(env@) } else { env_var_lines(env@) },
            out@.len() == i,
            forall|j: int| 0 <= j < i ==> #[trigger] out@[j]@ == want[j],
        decreases env@.len() - i,
    {
        let name = env[i].0.as_str();
        let value = env[i].1.as_str();
        let mut s = if compose { String::from_str("      ") } else { String::from_str("        - name: ") };
        s.append(name);
        if compose {
            s.append(": \"");
        } else {
            s.append("\n          value: \"");
        }
        s.append(value);
        s.append("\"");
        out.push(s);
        i = i + 1;
    }
    assert(out@.map_values(|s: String| s@) =~= want);
    out
}
/// The Deployment manifest of a Kubernetes configuration.
pub open spec fn deployment_yaml(c: KubernetesConfig) -> Seq<char> {
    "\napiVersion: apps/v1\nkind: Deployment\nmetadata:\n  name: "@
        + c.deployment_name@
        + "\n  namespace: "@
        + c.namespace@
        + "\n  labels:\n    app: agentx\n    component: core\nspec:\n  replicas: "@
        + decimal(c.replicas as nat)
        + "\n  selector:\n    matchLabels:\n      app: agentx\n      component: core\n  template:\n    metadata:\n      labels:\n        app: agentx\n        component: core\n    spec:\n      containers:\n      - name: agentx-core\n        image: "@
        + c.image@
        + ":"@
        + c.image_tag@
        + "\n        ports:\n        - containerPort: 50051\n          name: grpc\n        - containerPort: 8080\n          name: http\n        env:\n"@
        + join_lines(env_var_lines(c.env_vars@))
        + "\n        resources:\n          requests:\n            cpu: "@
        + c.resources.cpu_request@
        + "\n            memory: "@
        + c.resources.memory_request@
        + "\n          limits:\n            cpu: "@
        + c.resources.cpu_limit@
        + "\n            memory: "@
        + c.resources.memory_limit@
        + "\n        livenessProbe:\n          httpGet:\n            path: /health\n            port: 8080\n          initialDelaySeconds: 30\n          periodSeconds: 10\n        readinessProbe:\n          httpGet:\n            path: /ready\n            port: 8080\n          initialDelaySeconds: 5\n          periodSeconds: 5\n"@
}
/// The Service manifest of a Kubernetes configuration.
pub open spec fn service_yaml(c: KubernetesConfig) -> Seq<char> {
    "\napiVersion: v1\nkind: Service\nmetadata:\n  name: "@
        + c.service_name@
        + "\n  namespace: "@
        + c.namespace@
        + "\n  labels:\n    app: agentx\n    component: core\nspec:\n  selector:\n    app: agentx\n    component: core\n  ports:\n  - name: grpc\n    port: 50051\n    targetPort: 50051\n    protocol: TCP\n  - name: http\n    port: 8080\n    targetPort: 8080\n    protocol: TCP\n  type: ClusterIP\n"@
}
/// The TLS section of an Ingress manifest: the host and a secret named after
/// the deployment when TLS is on, else nothing.
pub open spec fn tls_block(i: IngressConfig, c: KubernetesConfig) -> Seq<char> {
    if i.tls_enabled {
        "  tls:\n  - hosts:\n    - "@ + i.host@ + "\n    secretName: "@ + c.deployment_name@ + "-tls"@
    } else {
        ""@
    }
}

fn tls_section(i: &IngressConfig, c: &KubernetesConfig) -> (r: String)
    ensures
        r@ == tls_block(*i, *c),
{
    if i.tls_enabled {
        let mut s = String::from_str("  tls:\n  - hosts:\n    - ");
        s.append(i.host.as_str());
        s.append("\n    secretName: ");
        s.append(c.deployment_name.as_str());
        s.append("-tls");
        s
    } else {
        String::from_str("")
    }
}
/// The Ingress manifest of a Kubernetes configuration with an ingress.
pub open spec fn ingress_yaml(c: KubernetesConfig, i: IngressConfig) -> Seq<char> {
    "\napiVersion: networking.k8s.io/v1\nkind: Ingress\nmetadata:\n  name: "@
        + c.deployment_name@
        + "-ingress\n  namespace: "@
        + c.namespace@
        + "\n  annotations:\n    nginx.ingress.kubernetes.io/rewrite-target: /\n"@
        + (if i.cert_manager { "    cert-manager.io/cluster-issuer: letsencrypt-prod"@ } else { ""@ })
        + "\nspec:\n"@
        + tls_block(i, c)
        + "\n  rules:\n  - host: "@
        + i.host@
        + "\n    http:\n      paths:\n      - path: "@
        + i.path@
        + "\n        pathType: Prefix\n        backend:\n          service:\n            name: "@
        + c.service_name@
        + "\n            port:\n              number: 8080\n"@
}
/// The docker-compose file of a Docker configuration.
pub open spec fn docker_compose_yaml(c: DockerConfig) -> Seq<char> {
    "\nversion: '3.8'\n\nservices:\n  agentx-core:\n    build:\n      context: "@
        + c.build_context@
        + "\n      dockerfile: "@
        + c.dockerfile_path@
        + "\n    image: "@
        + c.image_name@
        + ":"@
        + c.tag@
        + "\n    container_name: agentx-core\n    restart: unless-stopped\n    ports:\n"@
        + join_lines(c.ports@.map_values(|p: PortMapping| port_line(p)))
        + "\n    environment:\n"@
        + join_lines(compose_env_lines(c.environment@))
        + "\n    volumes:\n"@
        + join_lines(c.volumes@.map_values(|v: VolumeMapping| volume_line(v)))
        + "\n    networks:\n      - agentx-network\n    healthcheck:\n      test: [\"CMD\", \"curl\", \"-f\", \"http://localhost:8080/health\"]\n      interval: 30s\n      timeout: 10s\n      retries: 3\n      start_period: 40s\n\nnetworks:\n  agentx-network:\n    driver: bridge\n\nvolumes:\n  agentx-data:\n    driver: local\n"@
}
/// The Dockerfile generated for every Docker configuration.
pub open spec fn dockerfile_text() -> Seq<char> {
    "\n# 多阶段构建\nFROM rust:1.75 as builder\n\nWORKDIR /app\nCOPY . .\n\n# 构建应用\nRUN cargo build --release\n\n# 运行时镜像\nFROM debian:bookworm-slim\n\n# 安装运行时依赖\nRUN apt-get update && apt-get install -y \\\n    ca-certificates \\\n    libssl3 \\\n    && rm -rf /var/lib/apt/lists/*\n\n# 创建应用用户\nRUN useradd -r -s /bin/false agentx\n\n# 复制二进制文件\nCOPY --from=builder /app/target/release/agentx-core /usr/local/bin/agentx-core\n\n# 设置权限\nRUN chmod +x /usr/local/bin/agentx-core\n\n# 切换到应用用户\nUSER agentx\n\n# 暴露端口\nEXPOSE 50051 8080\n\n# 健康检查\nHEALTHCHECK --interval=30s --timeout=3s --start-period=5s --retries=3 \\\n    CMD curl -f http://localhost:8080/health || exit 1\n\n# 启动命令\nCMD [\"agentx-core\"]\n"@
}
/// Generates the Kubernetes manifests of a configuration.
pub struct KubernetesDeploymentManager {
    config: KubernetesConfig,
}

impl KubernetesDeploymentManager {
    /// The configuration.
    pub closed spec fn config_spec(&self) -> KubernetesConfig {
        self.config
    }

    /// A generator for `config`.
    pub fn new(config: KubernetesConfig) -> (r: Self)
        ensures
            r.config_spec() == config,
    {
        KubernetesDeploymentManager { config }
    }

    /// The configuration.
    pub fn config(&self) -> (r: &KubernetesConfig)
        ensures
            *r == self.config_spec(),
    {
        &self.config
    }

    /// The Deployment manifest.
    pub fn generate_deployment_yaml(&self) -> (r: String)
        ensures
            r@ == deployment_yaml(self.config_spec()),
    {
        let replicas = decimal_string(self.config.replicas as u64);
        let env = self.generate_env_vars();
        let mut s = String::from_str("\napiVersion: apps/v1\nkind: Deployment\nmetadata:\n  name: ");
        s.append(self.config.deployment_name.as_str());
        s.append("\n  namespace: ");
        s.append(self.config.namespace.as_str());
        s.append("\n  labels:\n    app: agentx\n    component: core\nspec:\n  replicas: ");
        s.append(replicas.as_str());
        s.append("\n  selector:\n    matchLabels:\n      app: agentx\n      component: core\n  template:\n    metadata:\n      labels:\n        app: agentx\n        component: core\n    spec:\n      containers:\n      - name: agentx-core\n        image: ");
        s.append(self.config.image.as_str());
        s.append(":");
        s.append(self.config.image_tag.as_str());
        s.append("\n        ports:\n        - containerPort: 50051\n          name: grpc\n        - containerPort: 8080\n          name: http\n        env:\n");
        s.append(env.as_str());
        s.append("\n        resources:\n          requests:\n            cpu: ");
        s.append(self.config.resources.cpu_request.as_str());
        s.append("\n            memory: ");
        s.append(self.config.resources.memory_request.as_str());
        s.append("\n          limits:\n            cpu: ");
        s.append(self.config.resources.cpu_limit.as_str());
        s.append("\n            memory: ");
        s.append(self.config.resources.memory_limit.as_str());
        s.append("\n        livenessProbe:\n          httpGet:\n            path: /health\n            port: 8080\n          initialDelaySeconds: 30\n          periodSeconds: 10\n        readinessProbe:\n          httpGet:\n            path: /ready\n            port: 8080\n          initialDelaySeconds: 5\n          periodSeconds: 5\n");
        s
    }

    /// The Service manifest.
    pub fn generate_service_yaml(&self) -> (r: String)
        ensures
            r@ == service_yaml(self.config_spec()),
    {
        let mut s = String::from_str("\napiVersion: v1\nkind: Service\nmetadata:\n  name: ");
        s.append(self.config.service_name.as_str());
        s.append("\n  namespace: ");
        s.append(self.config.namespace.as_str());
        s.append("\n  labels:\n    app: agentx\n    component: core\nspec:\n  selector:\n    app: agentx\n    component: core\n  ports:\n  - name: grpc\n    port: 50051\n    targetPort: 50051\n    protocol: TCP\n  - name: http\n    port: 8080\n    targetPort: 8080\n    protocol: TCP\n  type: ClusterIP\n");
        s
    }

    /// The Ingress manifest, when the configuration has an ingress.
    pub fn generate_ingress_yaml(&self) -> (r: Option<String>)
        ensures
            match self.config_spec().ingress {
                Some(i) => r matches Some(y) && y@ == ingress_yaml(self.config_spec(), i),
                None => r is None,
            },
    {
        match &self.config.ingress {
            Some(ingress) => {
                let issuer = if ingress.cert_manager { "    cert-manager.io/cluster-issuer: letsencrypt-prod" } else { "" };
                let tls = tls_section(ingress, &self.config);
                let mut s = String::from_str("\napiVersion: networking.k8s.io/v1\nkind: Ingress\nmetadata:\n  name: ");
                s.append(self.config.deployment_name.as_str());
                s.append("-ingress\n  namespace: ");
                s.append(self.config.namespace.as_str());
                s.append("\n  annotations:\n    nginx.ingress.kubernetes.io/rewrite-target: /\n");
                s.append(issuer);
                s.append("\nspec:\n");
                s.append(tls.as_str());
                s.append("\n  rules:\n  - host: ");
                s.append(ingress.host.as_str());
                s.append("\n    http:\n      paths:\n      - path: ");
                s.append(ingress.path.as_str());
                s.append("\n        pathType: Prefix\n        backend:\n          service:\n            name: ");
                s.append(self.config.service_name.as_str());
                s.append("\n            port:\n              number: 8080\n");
                Some(s)
            },
            None => None,
        }
    }

    /// The environment section of the Deployment manifest: one entry per
    /// variable, in the order of the configuration.
    pub fn generate_env_vars(&self) -> (r: String)
        ensures
            r@ == join_lines(env_var_lines(self.config_spec().env_vars@)),
    {
        let lines = env_lines(&self.config.env_vars, false);
        join_line_list(&lines)
    }
}

/// Generates the Docker files of a configuration.
pub struct DockerDeploymentManager {
    config: DockerConfig,
}

impl DockerDeploymentManager {
    /// The configuration.
    pub closed spec fn config_spec(&self) -> DockerConfig {
        self.config
    }

    /// A generator for `config`.
    pub fn new(config: DockerConfig) -> (r: Self)
        ensures
            r.config_spec() == config,
    {
        DockerDeploymentManager { config }
    }

    /// The configuration.
    pub fn config(&self) -> (r: &DockerConfig)
        ensures
            *r == self.config_spec(),
    {
        &self.config
    }

    /// The Dockerfile: a two-stage build of the release binary.
    pub fn generate_dockerfile(&self) -> (r: String)
        ensures
            r@ == dockerfile_text(),
    {
        String::from_str("\n# 多阶段构建\nFROM rust:1.75 as builder\n\nWORKDIR /app\nCOPY . .\n\n# 构建应用\nRUN cargo build --release\n\n# 运行时镜像\nFROM debian:bookworm-slim\n\n# 安装运行时依赖\nRUN apt-get update && apt-get install -y \\\n    ca-certificates \\\n    libssl3 \\\n    && rm -rf /var/lib/apt/lists/*\n\n# 创建应用用户\nRUN useradd -r -s /bin/false agentx\n\n# 复制二进制文件\nCOPY --from=builder /app/target/release/agentx-core /usr/local/bin/agentx-core\n\n# 设置权限\nRUN chmod +x /usr/local/bin/agentx-core\n\n# 切换到应用用户\nUSER agentx\n\n# 暴露端口\nEXPOSE 50051 8080\n\n# 健康检查\nHEALTHCHECK --interval=30s --timeout=3s --start-period=5s --retries=3 \\\n    CMD curl -f http://localhost:8080/health || exit 1\n\n# 启动命令\nCMD [\"agentx-core\"]\n")
    }

    /// The docker-compose file.
    pub fn generate_docker_compose(&self) -> (r: String)
        ensures
            r@ == docker_compose_yaml(self.config_spec()),
    {
        let ports = self.generate_port_mappings();
        let env = self.generate_environment_vars();
        let volumes = self.generate_volume_mappings();
        let mut s = String::from_str("\nversion: '3.8'\n\nservices:\n  agentx-core:\n    build:\n      context: ");
        s.append(self.config.build_context.as_str());
        s.append("\n      dockerfile: ");
        s.append(self.config.dockerfile_path.as_str());
        s.append("\n    image: ");
        s.append(self.config.image_name.as_str());
        s.append(":");
        s.append(self.config.tag.as_str());
        s.append("\n    container_name: agentx-core\n    restart: unless-stopped\n    ports:\n");
        s.append(ports.as_str());
        s.append("\n    environment:\n");
        s.append(env.as_str());
        s.append("\n    volumes:\n");
        s.append(volumes.as_str());
        s.append("\n    networks:\n      - agentx-network\n    healthcheck:\n      test: [\"CMD\", \"curl\", \"-f\", \"http://localhost:8080/health\"]\n      interval: 30s\n      timeout: 10s\n      retries: 3\n      start_period: 40s\n\nnetworks:\n  agentx-network:\n    driver: bridge\n\nvolumes:\n  agentx-data:\n    driver: local\n");
        s
    }

    /// The port section of the compose file: one entry per published port.
    pub fn generate_port_mappings(&self) -> (r: String)
        ensures
            r@ == join_lines(self.config_spec().ports@.map_values(|p: PortMapping| port_line(p))),
    {
        let ghost want = self.config.ports@.map_values(|p: PortMapping| port_line(p));
        let mut lines: Vec<String> = Vec::new();
        let mut i: usize = 0;
        while i < self.config.ports.len()
            invariant
                i <= self.config.ports@.len(),
                want == self.config.ports@.map_values(|p: PortMapping| port_line(p)),
                lines@.len() == i,
                forall|j: int| 0 <= j < i ==> #[trigger] lines@[j]@ == want[j],
            decreases self.config.ports@.len() - i,
        {
            let p = &self.config.ports[i];
            let host = decimal_string(p.host_port as u64);
            let container = decimal_string(p.container_port as u64);
            let mut s = String::from_str("      - \"");
            s.append(host.as_str());
            s.append(":");
            s.append(container.as_str());
            s.append("\"");
            lines.push(s);
            i = i + 1;
        }
        assert(lines@.map_values(|s: String| s@) =~= want);
        join_line_list(&lines)
    }

    /// The environment section of the compose file: one entry per variable,
    /// in the order of the configuration.
    pub fn generate_environment_vars(&self) -> (r: String)
        ensures
            r@ == join_lines(compose_env_lines(self.config_spec().environment@)),
    {
        let lines = env_lines(&self.config.environment, true);
        join_line_list(&lines)
    }

    /// The volume section of the compose file: one entry per volume, marked
    /// read-only where it is.
    pub fn generate_volume_mappings(&self) -> (r: String)
        ensures
            r@ == join_lines(self.config_spec().volumes@.map_values(|v: VolumeMapping| volume_line(v))),
    {
        let ghost want = self.config.volumes@.map_values(|v: VolumeMapping| volume_line(v));
        let mut lines: Vec<String> = Vec::new();
        let mut i: usize = 0;
        while i < self.config.volumes.len()
            invariant
                i <= self.config.volumes@.len(),
                want == self.config.volumes@.map_values(|v: VolumeMapping| volume_line(v)),
                lines@.len() == i,
                forall|j: int| 0 <= j < i ==> #[trigger] lines@[j]@ == want[j],
            decreases self.config.volumes@.len() - i,
        {
            let v = &self.config.volumes[i];
            let mut s = String::from_str("      - \"");
            s.append(v.host_path.as_str());
            s.append(":");
            s.append(v.container_path.as_str());
            if v.read_only {
                s.append(":ro");
            } else {
                s.append("");
            }
            s.append("\"");
            lines.push(s);
            i = i + 1;
        }
        assert(lines@.map_values(|s: String| s@) =~= want);
        join_line_list(&lines)
    }
}

/// Deployment across Kubernetes, Docker and a cloud provider.
pub struct CloudNativeManager {
    kubernetes: Option<KubernetesDeploymentManager>,
    docker: Option<DockerDeploymentManager>,
    cloud_config: Option<CloudProviderConfig>,
}

/// The view of an optional Kubernetes generator as its configuration.
pub open spec fn k8s_config_of(m: Option<KubernetesDeploymentManager>) -> Option<KubernetesConfig> {
    match m {
        Some(k) => Some(k.config_spec()),
        None => None,
    }
}

/// The view of an optional Docker generator as its configuration.
pub open spec fn docker_config_of(m: Option<DockerDeploymentManager>) -> Option<DockerConfig> {
    match m {
        Some(d) => Some(d.config_spec()),
        None => None,
    }
}

/// The files generated for the configured deployments, by file name:
/// `deployment.yaml`, `service.yaml` and, with an ingress, `ingress.yaml` for
/// Kubernetes; `Dockerfile` and `docker-compose.yml` for Docker.
pub open spec fn deployment_files(k8s: Option<KubernetesConfig>, docker: Option<DockerConfig>) -> Seq<(Seq<char>, Seq<char>)> {
    let k = match k8s {
        Some(c) => {
            let base = seq![("deployment.yaml"@, deployment_yaml(c)), ("service.yaml"@, service_yaml(c))];
            match c.ingress {
                Some(i) => base.push(("ingress.yaml"@, ingress_yaml(c, i))),
                None => base,
            }
        },
        None => Seq::empty(),
    };
    match docker {
        Some(d) => k + seq![("Dockerfile"@, dockerfile_text()), ("docker-compose.yml"@, docker_compose_yaml(d))],
        None => k,
    }
}

/// The warnings about a deployment: none configured, or cloud credentials
/// without an access key.
pub open spec fn config_warnings(has_k8s: bool, has_docker: bool, cloud: Option<CloudProviderConfig>) -> Seq<Seq<char>> {
    let w = if !has_k8s && !has_docker { seq!["未配置任何部署方式"@] } else { Seq::empty() };
    match cloud {
        Some(c) => if c.credentials.access_key is None { w.push("云提供商凭证不完整"@) } else { w },
        None => w,
    }
}

impl CloudNativeManager {
    /// The Kubernetes configuration, if any.
    pub closed spec fn kubernetes_spec(&self) -> Option<KubernetesConfig> {
        k8s_config_of(self.kubernetes)
    }

    /// The Docker configuration, if any.
    pub closed spec fn docker_spec(&self) -> Option<DockerConfig> {
        docker_config_of(self.docker)
    }

    /// The cloud provider configuration, if any.
    pub closed spec fn cloud_spec(&self) -> Option<CloudProviderConfig> {
        self.cloud_config
    }

    /// A manager with nothing configured.
    pub fn new() -> (r: Self)
        ensures
            r.kubernetes_spec() is None,
            r.docker_spec() is None,
            r.cloud_spec() is None,
    {
        CloudNativeManager { kubernetes: None, docker: None, cloud_config: None }
    }

    /// The manager with Kubernetes configured as `config`.
    pub fn with_kubernetes(self, config: KubernetesConfig) -> (r: Self)
        ensures
            r.kubernetes_spec() == Some(config),
            r.docker_spec() == self.docker_spec(),
            r.cloud_spec() == self.cloud_spec(),
    {
        CloudNativeManager { kubernetes: Some(KubernetesDeploymentManager::new(config)), ..self }
    }

    /// The manager with Docker configured as `config`.
    pub fn with_docker(self, config: DockerConfig) -> (r: Self)
        ensures
            r.docker_spec() == Some(config),
            r.kubernetes_spec() == self.kubernetes_spec(),
            r.cloud_spec() == self.cloud_spec(),
    {
        CloudNativeManager { docker: Some(DockerDeploymentManager::new(config)), ..self }
    }

    /// The manager with the cloud provider configured as `config`.
    pub fn with_cloud_provider(self, config: CloudProviderConfig) -> (r: Self)
        ensures
            r.cloud_spec() == Some(config),
            r.kubernetes_spec() == self.kubernetes_spec(),
            r.docker_spec() == self.docker_spec(),
    {
        CloudNativeManager { cloud_config: Some(config), ..self }
    }

    /// The deployment files, by file name, in the order listed in
    /// `deployment_files`.
    pub fn generate_deployment_files(&self) -> (r: Vec<(String, String)>)
        ensures
            r@.map_values(|f: (String, String)| (f.0@, f.1@)) == deployment_files(self.kubernetes_spec(), self.docker_spec()),
    {
        let mut files: Vec<(String, String)> = Vec::new();
        match &self.kubernetes {
            Some(k8s) => {
                files.push((String::from_str("deployment.yaml"), k8s.generate_deployment_yaml()));
                files.push((String::from_str("service.yaml"), k8s.generate_service_yaml()));
                match k8s.generate_ingress_yaml() {
                    Some(ingress) => { files.push((String::from_str("ingress.yaml"), ingress)); },
                    None => {},
                }
            },
            None => {},
        }
        let ghost after_k8s = files@.map_values(|f: (String, String)| (f.0@, f.1@));
        match &self.docker {
            Some(docker) => {
                files.push((String::from_str("Dockerfile"), docker.generate_dockerfile()));
                files.push((String::from_str("docker-compose.yml"), docker.generate_docker_compose()));
            },
            None => {},
        }
        assert(files@.map_values(|f: (String, String)| (f.0@, f.1@)) =~= deployment_files(self.kubernetes_spec(), self.docker_spec()));
        files
    }

    /// Warnings about the configuration.
    pub fn validate_configuration(&self) -> (r: Vec<String>)
        ensures
            r@.map_values(|s: String| s@) == config_warnings(self.kubernetes_spec() is Some, self.docker_spec() is Some, self.cloud_spec()),
    {
        let mut warnings: Vec<String> = Vec::new();
        if self.kubernetes.is_none() && self.docker.is_none() {
            warnings.push(String::from_str("未配置任何部署方式"));
        }
        match &self.cloud_config {
            Some(c) => {
                if c.credentials.access_key.is_none() {
                    warnings.push(String::from_str("云提供商凭证不完整"));
                }
            },
            None => {},
        }
        assert(warnings@.map_values(|s: String| s@) =~= config_warnings(self.kubernetes_spec() is Some, self.docker_spec() is Some, self.cloud_spec()));
        warnings
    }
}

impl Default for CloudNativeManager {
    fn default() -> (r: Self)
        ensures
            r.kubernetes_spec() is None,
            r.docker_spec() is None,
            r.cloud_spec() is None,
    {
        CloudNativeManager::new()
    }
}

/// A volume's compose line is its mount, `host:container`, in quotes, and
/// mounting it read-only adds `:ro` to the mount and nothing else.
pub proof fn lemma_volume_line_read_only(v: VolumeMapping)
    ensures
        ({
            let mount = "      - \""@ + v.host_path@ + ":"@ + v.container_path@;
            &&& volume_line(VolumeMapping { read_only: false, ..v }) == mount + "\""@
            &&& volume_line(VolumeMapping { read_only: true, ..v }) == mount + ":ro"@ + "\""@
        }),
{
    let mount = "      - \""@ + v.host_path@ + ":"@ + v.container_path@;
    reveal_strlit("");
    assert(mount + ""@ =~= mount);
}

} // verus!
