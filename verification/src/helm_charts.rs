//! Helm charts: the chart configuration with its default values, and the
//! chart files generated from it.
use vstd::prelude::*;
use std::collections::HashMap;
use crate::cloud_native::ResourceRequirements;
use crate::text::{decimal, decimal_string, join_line_list, join_lines};

verus! {

/// A maintainer of a chart.
#[derive(Debug, Clone)]
pub struct Maintainer {
    /// Name.
    pub name: String,
    /// E-mail address.
    pub email: String,
    /// Web site, if any.
    pub url: Option<String>,
}

/// A chart the chart depends on.
#[derive(Debug, Clone)]
pub struct Dependency {
    /// Name.
    pub name: String,
    /// Version.
    pub version: String,
    /// Repository.
    pub repository: String,
    /// Condition, if any.
    pub condition: Option<String>,
    /// Tags.
    pub tags: Vec<String>,
}

/// The container image.
#[derive(Debug, Clone)]
pub struct ImageConfig {
    /// Repository.
    pub repository: String,
    /// Pull policy.
    pub pull_policy: String,
    /// Tag.
    pub tag: String,
    /// Secrets to pull with.
    pub pull_secrets: Vec<String>,
}

/// The service.
#[derive(Debug, Clone)]
pub struct ServiceConfig {
    /// Service type.
    pub service_type: String,
    /// Port.
    pub port: u16,
    /// Target port.
    pub target_port: u16,
    /// Node port, if any.
    pub node_port: Option<u16>,
    /// Annotations.
    pub annotations: HashMap<String, String>,
}

/// A path of an ingress host.
#[derive(Debug, Clone)]
pub struct IngressPath {
    /// Path.
    pub path: String,
    /// Path type.
    pub path_type: String,
}

/// A host of the ingress.
#[derive(Debug, Clone)]
pub struct IngressHost {
    /// Host name.
    pub host: String,
    /// Paths.
    pub paths: Vec<IngressPath>,
}

/// TLS of the ingress.
#[derive(Debug, Clone)]
pub struct IngressTLS {
    /// Secret holding the certificate.
    pub secret_name: String,
    /// Hosts.
    pub hosts: Vec<String>,
}

/// The ingress.
#[derive(Debug, Clone)]
pub struct IngressValues {
    /// Whether it is on.
    pub enabled: bool,
    /// Class name, if any.
    pub class_name: Option<String>,
    /// Annotations.
    pub annotations: HashMap<String, String>,
    /// Hosts.
    pub hosts: Vec<IngressHost>,
    /// TLS.
    pub tls: Vec<IngressTLS>,
}

/// Autoscaling.
#[derive(Debug, Clone)]
pub struct AutoscalingConfig {
    /// Whether it is on.
    pub enabled: bool,
    /// Fewest replicas.
    pub min_replicas: u32,
    /// Most replicas.
    pub max_replicas: u32,
    /// Target CPU use, in percent.
    pub target_cpu_utilization: u32,
    /// Target memory use, in percent, if any.
    pub target_memory_utilization: Option<u32>,
}

/// A toleration of node taints.
#[derive(Debug, Clone)]
pub struct Toleration {
    /// Key.
    pub key: String,
    /// Operator.
    pub operator: String,
    /// Value, if any.
    pub value: Option<String>,
    /// Effect.
    pub effect: String,
}

/// The default values of a chart. The environment is a list of distinct
/// names with their values.
#[derive(Debug, Clone)]
pub struct HelmValues {
    /// Image.
    pub image: ImageConfig,
    /// Replicas.
    pub replica_count: u32,
    /// Service.
    pub service: ServiceConfig,
    /// Ingress.
    pub ingress: IngressValues,
    /// Resources.
    pub resources: ResourceRequirements,
    /// Autoscaling.
    pub autoscaling: AutoscalingConfig,
    /// Node selector.
    pub node_selector: HashMap<String, String>,
    /// Tolerations.
    pub tolerations: Vec<Toleration>,
    /// Affinity, if any.
    pub affinity: Option<String>,
    /// Environment variables.
    pub env: Vec<(String, String)>,
    /// Config maps.
    pub config_maps: Vec<String>,
    /// Secrets.
    pub secrets: Vec<String>,
}

/// A chart.
#[derive(Debug, Clone)]
pub struct HelmChartConfig {
    /// Name.
    pub name: String,
    /// Chart version.
    pub version: String,
    /// Version of the application.
    pub app_version: String,
    /// Description.
    pub description: String,
    /// Keywords.
    pub keywords: Vec<String>,
    /// Maintainers.
    pub maintainers: Vec<Maintainer>,
    /// Dependencies.
    pub dependencies: Vec<Dependency>,
    /// Default values.
    pub default_values: HelmValues,
}

/// `format!("{:?}", ..)` of a list of texts: Rust's debug form of the list.
pub uninterp spec fn debug_list(v: Seq<Seq<char>>) -> Seq<char>;

/// The debug form of a list of texts, as `format!("{:?}", ..)` writes it;
/// what it holds is named by `debug_list`.
#[verifier::external_body]
fn debug_text_list(v: &Vec<String>) -> (r: String)
    ensures
        r@ == debug_list(v@.map_values(|s: String| s@)),
{
    format!("{:?}", v)
}

/// The text of a boolean.
pub open spec fn bool_text(b: bool) -> Seq<char> {
    if b { "true"@ } else { "false"@ }
}

fn bool_string(b: bool) -> (r: String)
    ensures
        r@ == bool_text(b),
{
    if b { String::from_str("true") } else { String::from_str("false") }
}

/// The keyword lines of Chart.yaml.
pub open spec fn keyword_lines(v: Seq<String>) -> Seq<Seq<char>> {
    v.map_values(|k: String| "  - "@ + k@)
}

/// The maintainer lines of Chart.yaml.
pub open spec fn maintainer_lines(v: Seq<Maintainer>) -> Seq<Seq<char>> {
    v.map_values(|m: Maintainer| "  - name: "@ + m.name@ + "\n    email: "@ + m.email@)
}

/// The dependency lines of Chart.yaml.
pub open spec fn dependency_lines(v: Seq<Dependency>) -> Seq<Seq<char>> {
    v.map_values(|d: Dependency| "  - name: "@ + d.name@ + "\n    version: "@ + d.version@ + "\n    repository: "@ + d.repository@)
}

/// The dependency section of Chart.yaml: empty without dependencies.
pub open spec fn dependency_section(v: Seq<Dependency>) -> Seq<char> {
    if v.len() == 0 { ""@ } else { "dependencies:\n"@ + join_lines(dependency_lines(v)) }
}

/// The environment lines of values.yaml.
pub open spec fn values_env_lines(v: Seq<(String, String)>) -> Seq<Seq<char>> {
    v.map_values(|e: (String, String)| "  "@ + e.0@ + ": \""@ + e.1@ + "\""@)
}

/// The path lines of one ingress host in values.yaml.
pub open spec fn path_lines(v: Seq<IngressPath>) -> Seq<Seq<char>> {
    v.map_values(|p: IngressPath| "      - path: "@ + p.path@ + "\n        pathType: "@ + p.path_type@)
}

/// The entry of one ingress host in values.yaml.
pub open spec fn host_entry(h: IngressHost) -> Seq<char> {
    "  - host: "@ + h.host@ + "\n    http:\n      paths:\n"@ + join_lines(path_lines(h.paths@))
}

/// The class name of the ingress, or nothing.
pub open spec fn class_text(c: Option<String>) -> Seq<char> {
    match c {
        Some(s) => s@,
        None => ""@,
    }
}
/// The Chart.yaml of a chart.
pub open spec fn chart_yaml(c: HelmChartConfig) -> Seq<char> {
    "apiVersion: v2\nname: "@
        + c.name@
        + "\ndescription: "@
        + c.description@
        + "\ntype: application\nversion: "@
        + c.version@
        + "\nappVersion: \""@
        + c.app_version@
        + "\"\nkeywords:\n"@
        + join_lines(keyword_lines(c.keywords@))
        + "\nmaintainers:\n"@
        + join_lines(maintainer_lines(c.maintainers@))
        + "\n"@
        + dependency_section(c.dependencies@)
        + "\n"@
}
/// The values.yaml of a chart.
pub open spec fn values_yaml(c: HelmChartConfig) -> Seq<char> {
    "# AgentX Helm Chart默认配置\n\nreplicaCount: "@
        + decimal(c.default_values.replica_count as nat)
        + "\n\nimage:\n  repository: "@
        + c.default_values.image.repository@
        + "\n  pullPolicy: "@
        + c.default_values.image.pull_policy@
        + "\n  tag: \""@
        + c.default_values.image.tag@
        + "\"\n\nimagePullSecrets: []\n\nnameOverride: \"\"\nfullnameOverride: \"\"\n\nserviceAccount:\n  create: true\n  annotations: {}\n  name: \"\"\n\npodAnnotations: {}\n\npodSecurityContext: {}\n\nsecurityContext: {}\n\nservice:\n  type: "@
        + c.default_values.service.service_type@
        + "\n  port: "@
        + decimal(c.default_values.service.port as nat)
        + "\n  targetPort: "@
        + decimal(c.default_values.service.target_port as nat)
        + "\n\ningress:\n  enabled: "@
        + bool_text(c.default_values.ingress.enabled)
        + "\n  className: \""@
        + class_text(c.default_values.ingress.class_name)
        + "\"\n  annotations: {}\n  hosts:\n"@
        + join_lines(c.default_values.ingress.hosts@.map_values(|h: IngressHost| host_entry(h)))
        + "\n  tls: []\n\nresources:\n  limits:\n    cpu: "@
        + c.default_values.resources.cpu_limit@
        + "\n    memory: "@
        + c.default_values.resources.memory_limit@
        + "\n  requests:\n    cpu: "@
        + c.default_values.resources.cpu_request@
        + "\n    memory: "@
        + c.default_values.resources.memory_request@
        + "\n\nautoscaling:\n  enabled: "@
        + bool_text(c.default_values.autoscaling.enabled)
        + "\n  minReplicas: "@
        + decimal(c.default_values.autoscaling.min_replicas as nat)
        + "\n  maxReplicas: "@
        + decimal(c.default_values.autoscaling.max_replicas as nat)
        + "\n  targetCPUUtilizationPercentage: "@
        + decimal(c.default_values.autoscaling.target_cpu_utilization as nat)
        + "\n\nnodeSelector: {}\n\ntolerations: []\n\naffinity: {}\n\nenv:\n"@
        + join_lines(values_env_lines(c.default_values.env@))
        + "\n\nconfigMaps: "@
        + debug_list(c.default_values.config_maps@.map_values(|s: String| s@))
        + "\n\nsecrets: "@
        + debug_list(c.default_values.secrets@.map_values(|s: String| s@))
        + "\n"@
}
/// The file that `generate_deployment_template` writes.
pub open spec fn generate_deployment_template_text() -> Seq<char> {
    "apiVersion: apps/v1\nkind: Deployment\nmetadata:\n  name: {{ include \"agentx.fullname\" . }}\n  labels:\n    {{- include \"agentx.labels\" . | nindent 4 }}\nspec:\n  {{- if not .Values.autoscaling.enabled }}\n  replicas: {{ .Values.replicaCount }}\n  {{- end }}\n  selector:\n    matchLabels:\n      {{- include \"agentx.selectorLabels\" . | nindent 6 }}\n  template:\n    metadata:\n      {{- with .Values.podAnnotations }}\n      annotations:\n        {{- toYaml . | nindent 8 }}\n      {{- end }}\n      labels:\n        {{- include \"agentx.selectorLabels\" . | nindent 8 }}\n    spec:\n      {{- with .Values.imagePullSecrets }}\n      imagePullSecrets:\n        {{- toYaml . | nindent 8 }}\n      {{- end }}\n      serviceAccountName: {{ include \"agentx.serviceAccountName\" . }}\n      securityContext:\n        {{- toYaml .Values.podSecurityContext | nindent 8 }}\n      containers:\n        - name: {{ .Chart.Name }}\n          securityContext:\n            {{- toYaml .Values.securityContext | nindent 12 }}\n          image: \"{{ .Values.image.repository }}:{{ .Values.image.tag | default .Chart.AppVersion }}\"\n          imagePullPolicy: {{ .Values.image.pullPolicy }}\n          ports:\n            - name: grpc\n              containerPort: 50051\n              protocol: TCP\n            - name: http\n              containerPort: 8080\n              protocol: TCP\n          env:\n            {{- range $key, $value := .Values.env }}\n            - name: {{ $key }}\n              value: {{ $value | quote }}\n            {{- end }}\n          livenessProbe:\n            httpGet:\n              path: /health\n              port: http\n            initialDelaySeconds: 30\n            periodSeconds: 10\n          readinessProbe:\n            httpGet:\n              path: /ready\n              port: http\n            initialDelaySeconds: 5\n            periodSeconds: 5\n          resources:\n            {{- toYaml .Values.resources | nindent 12 }}\n      {{- with .Values.nodeSelector }}\n      nodeSelector:\n        {{- toYaml . | nindent 8 }}\n      {{- end }}\n      {{- with .Values.affinity }}\n      affinity:\n        {{- toYaml . | nindent 8 }}\n      {{- end }}\n      {{- with .Values.tolerations }}\n      tolerations:\n        {{- toYaml . | nindent 8 }}\n      {{- end }}\n"@
}
/// The file that `generate_service_template` writes.
pub open spec fn generate_service_template_text() -> Seq<char> {
    "apiVersion: v1\nkind: Service\nmetadata:\n  name: {{ include \"agentx.fullname\" . }}\n  labels:\n    {{- include \"agentx.labels\" . | nindent 4 }}\nspec:\n  type: {{ .Values.service.type }}\n  ports:\n    - port: {{ .Values.service.port }}\n      targetPort: http\n      protocol: TCP\n      name: http\n    - port: 50051\n      targetPort: grpc\n      protocol: TCP\n      name: grpc\n  selector:\n    {{- include \"agentx.selectorLabels\" . | nindent 4 }}\n"@
}
/// The file that `generate_ingress_template` writes.
pub open spec fn generate_ingress_template_text() -> Seq<char> {
    "{{- if .Values.ingress.enabled -}}\n{{- $fullName := include \"agentx.fullname\" . -}}\n{{- $svcPort := .Values.service.port -}}\n{{- if and .Values.ingress.className (not (hasKey .Values.ingress.annotations \"kubernetes.io/ingress.class\")) }}\n  {{- $_ := set .Values.ingress.annotations \"kubernetes.io/ingress.class\" .Values.ingress.className}}\n{{- end }}\n{{- if semverCompare \">=1.19-0\" .Capabilities.KubeVersion.GitVersion -}}\napiVersion: networking.k8s.io/v1\n{{- else if semverCompare \">=1.14-0\" .Capabilities.KubeVersion.GitVersion -}}\napiVersion: networking.k8s.io/v1beta1\n{{- else -}}\napiVersion: extensions/v1beta1\n{{- end }}\nkind: Ingress\nmetadata:\n  name: {{ $fullName }}\n  labels:\n    {{- include \"agentx.labels\" . | nindent 4 }}\n  {{- with .Values.ingress.annotations }}\n  annotations:\n    {{- toYaml . | nindent 4 }}\n  {{- end }}\nspec:\n  {{- if and .Values.ingress.className (semverCompare \">=1.18-0\" .Capabilities.KubeVersion.GitVersion) }}\n  ingressClassName: {{ .Values.ingress.className }}\n  {{- end }}\n  {{- if .Values.ingress.tls }}\n  tls:\n    {{- range .Values.ingress.tls }}\n    - hosts:\n        {{- range .hosts }}\n        - {{ . | quote }}\n        {{- end }}\n      secretName: {{ .secretName }}\n    {{- end }}\n  {{- end }}\n  rules:\n    {{- range .Values.ingress.hosts }}\n    - host: {{ .host | quote }}\n      http:\n        paths:\n          {{- range .paths }}\n          - path: {{ .path }}\n            {{- if and .pathType (semverCompare \">=1.18-0\" $.Capabilities.KubeVersion.GitVersion) }}\n            pathType: {{ .pathType }}\n            {{- end }}\n            backend:\n              {{- if semverCompare \">=1.19-0\" $.Capabilities.KubeVersion.GitVersion }}\n              service:\n                name: {{ $fullName }}\n                port:\n                  number: {{ $svcPort }}\n              {{- else }}\n              serviceName: {{ $fullName }}\n              servicePort: {{ $svcPort }}\n              {{- end }}\n          {{- end }}\n    {{- end }}\n{{- end }}\n"@
}
/// The file that `generate_helpers_template` writes.
pub open spec fn generate_helpers_template_text() -> Seq<char> {
    "{{/*\nExpand the name of the chart.\n*/}}\n{{- define \"agentx.name\" -}}\n{{- default .Chart.Name .Values.nameOverride | trunc 63 | trimSuffix \"-\" }}\n{{- end }}\n\n{{/*\nCreate a default fully qualified app name.\n*/}}\n{{- define \"agentx.fullname\" -}}\n{{- if .Values.fullnameOverride }}\n{{- .Values.fullnameOverride | trunc 63 | trimSuffix \"-\" }}\n{{- else }}\n{{- $name := default .Chart.Name .Values.nameOverride }}\n{{- if contains $name .Release.Name }}\n{{- .Release.Name | trunc 63 | trimSuffix \"-\" }}\n{{- else }}\n{{- printf \"%s-%s\" .Release.Name $name | trunc 63 | trimSuffix \"-\" }}\n{{- end }}\n{{- end }}\n{{- end }}\n\n{{/*\nCreate chart name and version as used by the chart label.\n*/}}\n{{- define \"agentx.chart\" -}}\n{{- printf \"%s-%s\" .Chart.Name .Chart.Version | replace \"+\" \"_\" | trunc 63 | trimSuffix \"-\" }}\n{{- end }}\n\n{{/*\nCommon labels\n*/}}\n{{- define \"agentx.labels\" -}}\nhelm.sh/chart: {{ include \"agentx.chart\" . }}\n{{ include \"agentx.selectorLabels\" . }}\n{{- if .Chart.AppVersion }}\napp.kubernetes.io/version: {{ .Chart.AppVersion | quote }}\n{{- end }}\napp.kubernetes.io/managed-by: {{ .Release.Service }}\n{{- end }}\n\n{{/*\nSelector labels\n*/}}\n{{- define \"agentx.selectorLabels\" -}}\napp.kubernetes.io/name: {{ include \"agentx.name\" . }}\napp.kubernetes.io/instance: {{ .Release.Name }}\n{{- end }}\n\n{{/*\nCreate the name of the service account to use\n*/}}\n{{- define \"agentx.serviceAccountName\" -}}\n{{- if .Values.serviceAccount.create }}\n{{- default (include \"agentx.fullname\" .) .Values.serviceAccount.name }}\n{{- else }}\n{{- default \"default\" .Values.serviceAccount.name }}\n{{- end }}\n{{- end }}\n"@
}
/// The file that `generate_hpa_template` writes.
pub open spec fn generate_hpa_template_text() -> Seq<char> {
    "{{- if .Values.autoscaling.enabled }}\napiVersion: autoscaling/v2\nkind: HorizontalPodAutoscaler\nmetadata:\n  name: {{ include \"agentx.fullname\" . }}\n  labels:\n    {{- include \"agentx.labels\" . | nindent 4 }}\nspec:\n  scaleTargetRef:\n    apiVersion: apps/v1\n    kind: Deployment\n    name: {{ include \"agentx.fullname\" . }}\n  minReplicas: {{ .Values.autoscaling.minReplicas }}\n  maxReplicas: {{ .Values.autoscaling.maxReplicas }}\n  metrics:\n    {{- if .Values.autoscaling.targetCPUUtilizationPercentage }}\n    - type: Resource\n      resource:\n        name: cpu\n        target:\n          type: Utilization\n          averageUtilization: {{ .Values.autoscaling.targetCPUUtilizationPercentage }}\n    {{- end }}\n    {{- if .Values.autoscaling.targetMemoryUtilizationPercentage }}\n    - type: Resource\n      resource:\n        name: memory\n        target:\n          type: Utilization\n          averageUtilization: {{ .Values.autoscaling.targetMemoryUtilizationPercentage }}\n    {{- end }}\n{{- end }}\n"@
}
/// The file that `generate_serviceaccount_template` writes.
pub open spec fn generate_serviceaccount_template_text() -> Seq<char> {
    "{{- if .Values.serviceAccount.create -}}\napiVersion: v1\nkind: ServiceAccount\nmetadata:\n  name: {{ include \"agentx.serviceAccountName\" . }}\n  labels:\n    {{- include \"agentx.labels\" . | nindent 4 }}\n  {{- with .Values.serviceAccount.annotations }}\n  annotations:\n    {{- toYaml . | nindent 4 }}\n  {{- end }}\n{{- end }}\n"@
}
/// The files of a chart, by path.
pub open spec fn chart_files(c: HelmChartConfig) -> Seq<(Seq<char>, Seq<char>)> {
    seq![
        ("Chart.yaml"@, chart_yaml(c)),
        ("values.yaml"@, values_yaml(c)),
        ("templates/deployment.yaml"@, generate_deployment_template_text()),
        ("templates/service.yaml"@, generate_service_template_text()),
        ("templates/ingress.yaml"@, generate_ingress_template_text()),
        ("templates/_helpers.tpl"@, generate_helpers_template_text()),
        ("templates/hpa.yaml"@, generate_hpa_template_text()),
        ("templates/serviceaccount.yaml"@, generate_serviceaccount_template_text()),
    ]
}

/// Generates the files of a chart.
pub struct HelmChartsGenerator {
    config: HelmChartConfig,
}

impl HelmChartsGenerator {
    /// The chart.
    pub closed spec fn config_spec(&self) -> HelmChartConfig {
        self.config
    }

    /// A generator for `config`.
    pub fn new(config: HelmChartConfig) -> (r: Self)
        ensures
            r.config_spec() == config,
    {
        HelmChartsGenerator { config }
    }

    /// The chart.
    pub fn config(&self) -> (r: &HelmChartConfig)
        ensures
            *r == self.config_spec(),
    {
        &self.config
    }

    fn keyword_text(&self) -> (r: String)
        ensures
            r@ == join_lines(keyword_lines(self.config.keywords@)),
    {
        let ghost want = keyword_lines(self.config.keywords@);
        let mut lines: Vec<String> = Vec::new();
        let mut i: usize = 0;
        while i < self.config.keywords.len()
            invariant
                i <= self.config.keywords@.len(),
                want == keyword_lines(self.config.keywords@),
                lines@.len() == i,
                forall|j: int| 0 <= j < i ==> #[trigger] lines@[j]@ == want[j],
            decreases self.config.keywords@.len() - i,
        {
            let mut s = String::from_str("  - ");
            s.append(self.config.keywords[i].as_str());
            lines.push(s);
            i = i + 1;
        }
        assert(lines@.map_values(|s: String| s@) =~= want);
        join_line_list(&lines)
    }

    fn maintainer_text(&self) -> (r: String)
        ensures
            r@ == join_lines(maintainer_lines(self.config.maintainers@)),
    {
        let ghost want = maintainer_lines(self.config.maintainers@);
        let mut lines: Vec<String> = Vec::new();
        let mut i: usize = 0;
        while i < self.config.maintainers.len()
            invariant
                i <= self.config.maintainers@.len(),
                want == maintainer_lines(self.config.maintainers@),
                lines@.len() == i,
                forall|j: int| 0 <= j < i ==> #[trigger] lines@[j]@ == want[j],
            decreases self.config.maintainers@.len() - i,
        {
            let m = &self.config.maintainers[i];
            let mut s = String::from_str("  - name: ");
            s.append(m.name.as_str());
            s.append("\n    email: ");
            s.append(m.email.as_str());
            lines.push(s);
            i = i + 1;
        }
        assert(lines@.map_values(|s: String| s@) =~= want);
        join_line_list(&lines)
    }

    fn dependency_text(&self) -> (r: String)
        ensures
            r@ == dependency_section(self.config.dependencies@),
    {
        if self.config.dependencies.len() == 0 {
            return String::from_str("");
        }
        let ghost want = dependency_lines(self.config.dependencies@);
        let mut lines: Vec<String> = Vec::new();
        let mut i: usize = 0;
        while i < self.config.dependencies.len()
            invariant
                i <= self.config.dependencies@.len(),
                want == dependency_lines(self.config.dependencies@),
                lines@.len() == i,
                forall|j: int| 0 <= j < i ==> #[trigger] lines@[j]@ == want[j],
            decreases self.config.dependencies@.len() - i,
        {
            let d = &self.config.dependencies[i];
            let mut s = String::from_str("  - name: ");
            s.append(d.name.as_str());
            s.append("\n    version: ");
            s.append(d.version.as_str());
            s.append("\n    repository: ");
            s.append(d.repository.as_str());
            lines.push(s);
            i = i + 1;
        }
        assert(lines@.map_values(|s: String| s@) =~= want);
        let deps = join_line_list(&lines);
        let mut s = String::from_str("dependencies:\n");
        s.append(deps.as_str());
        s
    }

    fn values_env_text(&self) -> (r: String)
        ensures
            r@ == join_lines(values_env_lines(self.config.default_values.env@)),
    {
        let env = &self.config.default_values.env;
        let ghost want = values_env_lines(env@);
        let mut lines: Vec<String> = Vec::new();
        let mut i: usize = 0;
        while i < env.len()
            invariant
                i <= env@.len(),
                want == values_env_lines(env@),
                lines@.len() == i,
                forall|j: int| 0 <= j < i ==> #[trigger] lines@[j]@ == want[j],
            decreases env@.len() - i,
        {
            let mut s = String::from_str("  ");
            s.append(env[i].0.as_str());
            s.append(": \"");
            s.append(env[i].1.as_str());
            s.append("\"");
            lines.push(s);
            i = i + 1;
        }
        assert(lines@.map_values(|s: String| s@) =~= want);
        join_line_list(&lines)
    }

    fn ingress_host_text(&self) -> (r: String)
        ensures
            r@ == join_lines(self.config.default_values.ingress.hosts@.map_values(|h: IngressHost| host_entry(h))),
    {
        let hosts = &self.config.default_values.ingress.hosts;
        let ghost want = hosts@.map_values(|h: IngressHost| host_entry(h));
        let mut lines: Vec<String> = Vec::new();
        let mut i: usize = 0;
        while i < hosts.len()
            invariant
                i <= hosts@.len(),
                want == hosts@.map_values(|h: IngressHost| host_entry(h)),
                lines@.len() == i,
                forall|j: int| 0 <= j < i ==> #[trigger] lines@[j]@ == want[j],
            decreases hosts@.len() - i,
        {
            let h = &hosts[i];
            let ghost pwant = path_lines(h.paths@);
            let mut plines: Vec<String> = Vec::new();
            let mut k: usize = 0;
            while k < h.paths.len()
                invariant
                    k <= h.paths@.len(),
                    pwant == path_lines(h.paths@),
                    plines@.len() == k,
                    forall|j: int| 0 <= j < k ==> #[trigger] plines@[j]@ == pwant[j],
                decreases h.paths@.len() - k,
            {
                let mut p = String::from_str("      - path: ");
                p.append(h.paths[k].path.as_str());
                p.append("\n        pathType: ");
                p.append(h.paths[k].path_type.as_str());
                plines.push(p);
                k = k + 1;
            }
            assert(plines@.map_values(|s: String| s@) =~= pwant);
            let paths = join_line_list(&plines);
            let mut s = String::from_str("  - host: ");
            s.append(h.host.as_str());
            s.append("\n    http:\n      paths:\n");
            s.append(paths.as_str());
            lines.push(s);
            i = i + 1;
        }
        assert(lines@.map_values(|s: String| s@) =~= want);
        join_line_list(&lines)
    }

    /// The Chart.yaml file.
    pub fn generate_chart_yaml(&self) -> (r: String)
        ensures
            r@ == chart_yaml(self.config_spec()),
    {
        let keywords = self.keyword_text();
        let maintainers = self.maintainer_text();
        let dependencies = self.dependency_text();
        let mut s = String::from_str("apiVersion: v2\nname: ");
        s.append(self.config.name.as_str());
        s.append("\ndescription: ");
        s.append(self.config.description.as_str());
        s.append("\ntype: application\nversion: ");
        s.append(self.config.version.as_str());
        s.append("\nappVersion: \"");
        s.append(self.config.app_version.as_str());
        s.append("\"\nkeywords:\n");
        s.append(keywords.as_str());
        s.append("\nmaintainers:\n");
        s.append(maintainers.as_str());
        s.append("\n");
        s.append(dependencies.as_str());
        s.append("\n");
        s
    }

    /// The values.yaml file.
    pub fn generate_values_yaml(&self) -> (r: String)
        ensures
            r@ == values_yaml(self.config_spec()),
    {
        let values = &self.config.default_values;
        let replicas = decimal_string(values.replica_count as u64);
        let port = decimal_string(values.service.port as u64);
        let target_port = decimal_string(values.service.target_port as u64);
        let ingress_enabled = bool_string(values.ingress.enabled);
        let class_name: &str = match &values.ingress.class_name { Some(c) => c.as_str(), None => "" };
        let hosts = self.ingress_host_text();
        let autoscaling = bool_string(values.autoscaling.enabled);
        let min_replicas = decimal_string(values.autoscaling.min_replicas as u64);
        let max_replicas = decimal_string(values.autoscaling.max_replicas as u64);
        let cpu_target = decimal_string(values.autoscaling.target_cpu_utilization as u64);
        let env = self.values_env_text();
        let config_maps = debug_text_list(&values.config_maps);
        let secrets = debug_text_list(&values.secrets);
        let mut s = String::from_str("# AgentX Helm Chart默认配置\n\nreplicaCount: ");
        s.append(replicas.as_str());
        s.append("\n\nimage:\n  repository: ");
        s.append(values.image.repository.as_str());
        s.append("\n  pullPolicy: ");
        s.append(values.image.pull_policy.as_str());
        s.append("\n  tag: \"");
        s.append(values.image.tag.as_str());
        s.append("\"\n\nimagePullSecrets: []\n\nnameOverride: \"\"\nfullnameOverride: \"\"\n\nserviceAccount:\n  create: true\n  annotations: {}\n  name: \"\"\n\npodAnnotations: {}\n\npodSecurityContext: {}\n\nsecurityContext: {}\n\nservice:\n  type: ");
        s.append(values.service.service_type.as_str());
        s.append("\n  port: ");
        s.append(port.as_str());
        s.append("\n  targetPort: ");
        s.append(target_port.as_str());
        s.append("\n\ningress:\n  enabled: ");
        s.append(ingress_enabled.as_str());
        s.append("\n  className: \"");
        s.append(class_name);
        s.append("\"\n  annotations: {}\n  hosts:\n");
        s.append(hosts.as_str());
        s.append("\n  tls: []\n\nresources:\n  limits:\n    cpu: ");
        s.append(values.resources.cpu_limit.as_str());
        s.append("\n    memory: ");
        s.append(values.resources.memory_limit.as_str());
        s.append("\n  requests:\n    cpu: ");
        s.append(values.resources.cpu_request.as_str());
        s.append("\n    memory: ");
        s.append(values.resources.memory_request.as_str());
        s.append("\n\nautoscaling:\n  enabled: ");
        s.append(autoscaling.as_str());
        s.append("\n  minReplicas: ");
        s.append(min_replicas.as_str());
        s.append("\n  maxReplicas: ");
        s.append(max_replicas.as_str());
        s.append("\n  targetCPUUtilizationPercentage: ");
        s.append(cpu_target.as_str());
        s.append("\n\nnodeSelector: {}\n\ntolerations: []\n\naffinity: {}\n\nenv:\n");
        s.append(env.as_str());
        s.append("\n\nconfigMaps: ");
        s.append(config_maps.as_str());
        s.append("\n\nsecrets: ");
        s.append(secrets.as_str());
        s.append("\n");
        s
    }

    /// A template file of the chart.
    pub fn generate_deployment_template(&self) -> (r: String)
        ensures
            r@ == generate_deployment_template_text(),
    {
        String::from_str("apiVersion: apps/v1\nkind: Deployment\nmetadata:\n  name: {{ include \"agentx.fullname\" . }}\n  labels:\n    {{- include \"agentx.labels\" . | nindent 4 }}\nspec:\n  {{- if not .Values.autoscaling.enabled }}\n  replicas: {{ .Values.replicaCount }}\n  {{- end }}\n  selector:\n    matchLabels:\n      {{- include \"agentx.selectorLabels\" . | nindent 6 }}\n  template:\n    metadata:\n      {{- with .Values.podAnnotations }}\n      annotations:\n        {{- toYaml . | nindent 8 }}\n      {{- end }}\n      labels:\n        {{- include \"agentx.selectorLabels\" . | nindent 8 }}\n    spec:\n      {{- with .Values.imagePullSecrets }}\n      imagePullSecrets:\n        {{- toYaml . | nindent 8 }}\n      {{- end }}\n      serviceAccountName: {{ include \"agentx.serviceAccountName\" . }}\n      securityContext:\n        {{- toYaml .Values.podSecurityContext | nindent 8 }}\n      containers:\n        - name: {{ .Chart.Name }}\n          securityContext:\n            {{- toYaml .Values.securityContext | nindent 12 }}\n          image: \"{{ .Values.image.repository }}:{{ .Values.image.tag | default .Chart.AppVersion }}\"\n          imagePullPolicy: {{ .Values.image.pullPolicy }}\n          ports:\n            - name: grpc\n              containerPort: 50051\n              protocol: TCP\n            - name: http\n              containerPort: 8080\n              protocol: TCP\n          env:\n            {{- range $key, $value := .Values.env }}\n            - name: {{ $key }}\n              value: {{ $value | quote }}\n            {{- end }}\n          livenessProbe:\n            httpGet:\n              path: /health\n              port: http\n            initialDelaySeconds: 30\n            periodSeconds: 10\n          readinessProbe:\n            httpGet:\n              path: /ready\n              port: http\n            initialDelaySeconds: 5\n            periodSeconds: 5\n          resources:\n            {{- toYaml .Values.resources | nindent 12 }}\n      {{- with .Values.nodeSelector }}\n      nodeSelector:\n        {{- toYaml . | nindent 8 }}\n      {{- end }}\n      {{- with .Values.affinity }}\n      affinity:\n        {{- toYaml . | nindent 8 }}\n      {{- end }}\n      {{- with .Values.tolerations }}\n      tolerations:\n        {{- toYaml . | nindent 8 }}\n      {{- end }}\n")
    }

    /// A template file of the chart.
    pub fn generate_service_template(&self) -> (r: String)
        ensures
            r@ == generate_service_template_text(),
    {
        String::from_str("apiVersion: v1\nkind: Service\nmetadata:\n  name: {{ include \"agentx.fullname\" . }}\n  labels:\n    {{- include \"agentx.labels\" . | nindent 4 }}\nspec:\n  type: {{ .Values.service.type }}\n  ports:\n    - port: {{ .Values.service.port }}\n      targetPort: http\n      protocol: TCP\n      name: http\n    - port: 50051\n      targetPort: grpc\n      protocol: TCP\n      name: grpc\n  selector:\n    {{- include \"agentx.selectorLabels\" . | nindent 4 }}\n")
    }

    /// A template file of the chart.
    pub fn generate_ingress_template(&self) -> (r: String)
        ensures
            r@ == generate_ingress_template_text(),
    {
        String::from_str("{{- if .Values.ingress.enabled -}}\n{{- $fullName := include \"agentx.fullname\" . -}}\n{{- $svcPort := .Values.service.port -}}\n{{- if and .Values.ingress.className (not (hasKey .Values.ingress.annotations \"kubernetes.io/ingress.class\")) }}\n  {{- $_ := set .Values.ingress.annotations \"kubernetes.io/ingress.class\" .Values.ingress.className}}\n{{- end }}\n{{- if semverCompare \">=1.19-0\" .Capabilities.KubeVersion.GitVersion -}}\napiVersion: networking.k8s.io/v1\n{{- else if semverCompare \">=1.14-0\" .Capabilities.KubeVersion.GitVersion -}}\napiVersion: networking.k8s.io/v1beta1\n{{- else -}}\napiVersion: extensions/v1beta1\n{{- end }}\nkind: Ingress\nmetadata:\n  name: {{ $fullName }}\n  labels:\n    {{- include \"agentx.labels\" . | nindent 4 }}\n  {{- with .Values.ingress.annotations }}\n  annotations:\n    {{- toYaml . | nindent 4 }}\n  {{- end }}\nspec:\n  {{- if and .Values.ingress.className (semverCompare \">=1.18-0\" .Capabilities.KubeVersion.GitVersion) }}\n  ingressClassName: {{ .Values.ingress.className }}\n  {{- end }}\n  {{- if .Values.ingress.tls }}\n  tls:\n    {{- range .Values.ingress.tls }}\n    - hosts:\n        {{- range .hosts }}\n        - {{ . | quote }}\n        {{- end }}\n      secretName: {{ .secretName }}\n    {{- end }}\n  {{- end }}\n  rules:\n    {{- range .Values.ingress.hosts }}\n    - host: {{ .host | quote }}\n      http:\n        paths:\n          {{- range .paths }}\n          - path: {{ .path }}\n            {{- if and .pathType (semverCompare \">=1.18-0\" $.Capabilities.KubeVersion.GitVersion) }}\n            pathType: {{ .pathType }}\n            {{- end }}\n            backend:\n              {{- if semverCompare \">=1.19-0\" $.Capabilities.KubeVersion.GitVersion }}\n              service:\n                name: {{ $fullName }}\n                port:\n                  number: {{ $svcPort }}\n              {{- else }}\n              serviceName: {{ $fullName }}\n              servicePort: {{ $svcPort }}\n              {{- end }}\n          {{- end }}\n    {{- end }}\n{{- end }}\n")
    }

    /// A template file of the chart.
    pub fn generate_helpers_template(&self) -> (r: String)
        ensures
            r@ == generate_helpers_template_text(),
    {
        String::from_str("{{/*\nExpand the name of the chart.\n*/}}\n{{- define \"agentx.name\" -}}\n{{- default .Chart.Name .Values.nameOverride | trunc 63 | trimSuffix \"-\" }}\n{{- end }}\n\n{{/*\nCreate a default fully qualified app name.\n*/}}\n{{- define \"agentx.fullname\" -}}\n{{- if .Values.fullnameOverride }}\n{{- .Values.fullnameOverride | trunc 63 | trimSuffix \"-\" }}\n{{- else }}\n{{- $name := default .Chart.Name .Values.nameOverride }}\n{{- if contains $name .Release.Name }}\n{{- .Release.Name | trunc 63 | trimSuffix \"-\" }}\n{{- else }}\n{{- printf \"%s-%s\" .Release.Name $name | trunc 63 | trimSuffix \"-\" }}\n{{- end }}\n{{- end }}\n{{- end }}\n\n{{/*\nCreate chart name and version as used by the chart label.\n*/}}\n{{- define \"agentx.chart\" -}}\n{{- printf \"%s-%s\" .Chart.Name .Chart.Version | replace \"+\" \"_\" | trunc 63 | trimSuffix \"-\" }}\n{{- end }}\n\n{{/*\nCommon labels\n*/}}\n{{- define \"agentx.labels\" -}}\nhelm.sh/chart: {{ include \"agentx.chart\" . }}\n{{ include \"agentx.selectorLabels\" . }}\n{{- if .Chart.AppVersion }}\napp.kubernetes.io/version: {{ .Chart.AppVersion | quote }}\n{{- end }}\napp.kubernetes.io/managed-by: {{ .Release.Service }}\n{{- end }}\n\n{{/*\nSelector labels\n*/}}\n{{- define \"agentx.selectorLabels\" -}}\napp.kubernetes.io/name: {{ include \"agentx.name\" . }}\napp.kubernetes.io/instance: {{ .Release.Name }}\n{{- end }}\n\n{{/*\nCreate the name of the service account to use\n*/}}\n{{- define \"agentx.serviceAccountName\" -}}\n{{- if .Values.serviceAccount.create }}\n{{- default (include \"agentx.fullname\" .) .Values.serviceAccount.name }}\n{{- else }}\n{{- default \"default\" .Values.serviceAccount.name }}\n{{- end }}\n{{- end }}\n")
    }

    /// A template file of the chart.
    pub fn generate_hpa_template(&self) -> (r: String)
        ensures
            r@ == generate_hpa_template_text(),
    {
        String::from_str("{{- if .Values.autoscaling.enabled }}\napiVersion: autoscaling/v2\nkind: HorizontalPodAutoscaler\nmetadata:\n  name: {{ include \"agentx.fullname\" . }}\n  labels:\n    {{- include \"agentx.labels\" . | nindent 4 }}\nspec:\n  scaleTargetRef:\n    apiVersion: apps/v1\n    kind: Deployment\n    name: {{ include \"agentx.fullname\" . }}\n  minReplicas: {{ .Values.autoscaling.minReplicas }}\n  maxReplicas: {{ .Values.autoscaling.maxReplicas }}\n  metrics:\n    {{- if .Values.autoscaling.targetCPUUtilizationPercentage }}\n    - type: Resource\n      resource:\n        name: cpu\n        target:\n          type: Utilization\n          averageUtilization: {{ .Values.autoscaling.targetCPUUtilizationPercentage }}\n    {{- end }}\n    {{- if .Values.autoscaling.targetMemoryUtilizationPercentage }}\n    - type: Resource\n      resource:\n        name: memory\n        target:\n          type: Utilization\n          averageUtilization: {{ .Values.autoscaling.targetMemoryUtilizationPercentage }}\n    {{- end }}\n{{- end }}\n")
    }

    /// A template file of the chart.
    pub fn generate_serviceaccount_template(&self) -> (r: String)
        ensures
            r@ == generate_serviceaccount_template_text(),
    {
        String::from_str("{{- if .Values.serviceAccount.create -}}\napiVersion: v1\nkind: ServiceAccount\nmetadata:\n  name: {{ include \"agentx.serviceAccountName\" . }}\n  labels:\n    {{- include \"agentx.labels\" . | nindent 4 }}\n  {{- with .Values.serviceAccount.annotations }}\n  annotations:\n    {{- toYaml . | nindent 4 }}\n  {{- end }}\n{{- end }}\n")
    }

    /// Every file of the chart, by path, in the order of `chart_files`.
    pub fn generate_all_files(&self) -> (r: Vec<(String, String)>)
        ensures
            r@.map_values(|f: (String, String)| (f.0@, f.1@)) == chart_files(self.config_spec()),
    {
        let mut files: Vec<(String, String)> = Vec::new();
        files.push((String::from_str("Chart.yaml"), self.generate_chart_yaml()));
        files.push((String::from_str("values.yaml"), self.generate_values_yaml()));
        files.push((String::from_str("templates/deployment.yaml"), self.generate_deployment_template()));
        files.push((String::from_str("templates/service.yaml"), self.generate_service_template()));
        files.push((String::from_str("templates/ingress.yaml"), self.generate_ingress_template()));
        files.push((String::from_str("templates/_helpers.tpl"), self.generate_helpers_template()));
        files.push((String::from_str("templates/hpa.yaml"), self.generate_hpa_template()));
        files.push((String::from_str("templates/serviceaccount.yaml"), self.generate_serviceaccount_template()));
        assert(files@.map_values(|f: (String, String)| (f.0@, f.1@)) =~= chart_files(self.config_spec()));
        files
    }
}

impl Default for HelmValues {
    fn default() -> (r: Self)
        ensures
            r.image.repository@ == "agentx/core"@,
            r.image.pull_policy@ == "IfNotPresent"@,
            r.image.tag@ == "latest"@,
            r.image.pull_secrets@.len() == 0,
            r.replica_count == 1,
            r.service.service_type@ == "ClusterIP"@,
            r.service.port == 8080,
            r.service.target_port == 8080,
            r.service.node_port is None,
            r.service.annotations@ == Map::<String, String>::empty(),
            !r.ingress.enabled,
            r.ingress.class_name matches Some(c) && c@ == "nginx"@,
            r.ingress.annotations@ == Map::<String, String>::empty(),
            r.ingress.hosts@.len() == 0,
            r.ingress.tls@.len() == 0,
            r.resources.cpu_request@ == "100m"@,
            r.resources.cpu_limit@ == "500m"@,
            r.resources.memory_request@ == "128Mi"@,
            r.resources.memory_limit@ == "512Mi"@,
            !r.autoscaling.enabled,
            r.autoscaling.min_replicas == 1,
            r.autoscaling.max_replicas == 10,
            r.autoscaling.target_cpu_utilization == 80,
            r.autoscaling.target_memory_utilization is None,
            r.node_selector@ == Map::<String, String>::empty(),
            r.tolerations@.len() == 0,
            r.affinity is None,
            r.env@.len() == 0,
            r.config_maps@.len() == 0,
            r.secrets@.len() == 0,
    {
        HelmValues {
            image: ImageConfig {
                repository: String::from_str("agentx/core"),
                pull_policy: String::from_str("IfNotPresent"),
                tag: String::from_str("latest"),
                pull_secrets: Vec::new(),
            },
            replica_count: 1,
            service: ServiceConfig {
                service_type: String::from_str("ClusterIP"),
                port: 8080,
                target_port: 8080,
                node_port: None,
                annotations: HashMap::new(),
            },
            ingress: IngressValues {
                enabled: false,
                class_name: Some(String::from_str("nginx")),
                annotations: HashMap::new(),
                hosts: Vec::new(),
                tls: Vec::new(),
            },
            resources: ResourceRequirements::default(),
            autoscaling: AutoscalingConfig {
                enabled: false,
                min_replicas: 1,
                max_replicas: 10,
                target_cpu_utilization: 80,
                target_memory_utilization: None,
            },
            node_selector: HashMap::new(),
            tolerations: Vec::new(),
            affinity: None,
            env: Vec::new(),
            config_maps: Vec::new(),
            secrets: Vec::new(),
        }
    }
}

/// The texts of a sequence of strings.
pub open spec fn strs(v: Seq<String>) -> Seq<Seq<char>> {
    v.map_values(|s: String| s@)
}

impl Default for HelmChartConfig {
    fn default() -> (r: Self)
        ensures
            r.name@ == "agentx"@,
            r.version@ == "0.1.0"@,
            r.app_version@ == "0.1.0"@,
            r.description@ == "AgentX - Universal AI Agent Framework"@,
            strs(r.keywords@) == seq!["ai"@, "agent"@, "framework"@, "rust"@],
            r.maintainers@.len() == 1,
            r.maintainers@[0].name@ == "AgentX Team"@,
            r.maintainers@[0].email@ == "team@agentx.dev"@,
            r.maintainers@[0].url matches Some(u) && u@ == "https://agentx.dev"@,
            r.dependencies@.len() == 0,
            r.default_values.replica_count == 1,
            r.default_values.image.repository@ == "agentx/core"@,
            r.default_values.service.port == 8080,
    {
        let mut keywords: Vec<String> = Vec::new();
        keywords.push(String::from_str("ai"));
        keywords.push(String::from_str("agent"));
        keywords.push(String::from_str("framework"));
        keywords.push(String::from_str("rust"));
        assert(strs(keywords@) =~= seq!["ai"@, "agent"@, "framework"@, "rust"@]);
        let mut maintainers: Vec<Maintainer> = Vec::new();
        maintainers.push(Maintainer {
            name: String::from_str("AgentX Team"),
            email: String::from_str("team@agentx.dev"),
            url: Some(String::from_str("https://agentx.dev")),
        });
        HelmChartConfig {
            name: String::from_str("agentx"),
            version: String::from_str("0.1.0"),
            app_version: String::from_str("0.1.0"),
            description: String::from_str("AgentX - Universal AI Agent Framework"),
            keywords,
            maintainers,
            dependencies: Vec::new(),
            default_values: HelmValues::default(),
        }
    }
}

} // verus!
