//! The platform core: protocol compatibility, cloud-native deployment, the
//! developer ecosystem and error recovery, held together.
use vstd::prelude::*;
use crate::cloud_native::CloudNativeManager;
use crate::developer_ecosystem::{default_commands, default_templates, DeveloperEcosystemManager, EcosystemError};
use crate::error_recovery::{ErrorRecoveryConfig, ErrorRecoveryManager, RecoveryStrategy};
use crate::protocol_compat::ProtocolCompatManager;

verus! {

/// The version of the platform core.
pub const VERSION: &'static str = "0.1.0";

/// The version and the features of the platform.
#[derive(Debug, Clone)]
pub struct SystemInfo {
    /// Version.
    pub version: String,
    /// Features, by name.
    pub features: Vec<String>,
}

/// The features that the platform names.
pub open spec fn platform_features() -> Seq<Seq<char>> {
    seq![
        "协议兼容层"@,
        "云原生部署"@,
        "开发者生态系统"@,
        "插件市场"@,
        "CLI工具"@,
        "错误恢复和故障处理"@,
        "断路器模式"@,
        "自动重试机制"@,
    ]
}

/// The core's subsystems.
pub struct AgentXCore {
    protocol_compat: ProtocolCompatManager,
    cloud_native: CloudNativeManager,
    developer_ecosystem: DeveloperEcosystemManager,
    error_recovery: ErrorRecoveryManager,
}

impl AgentXCore {
    /// The protocol adapters.
    pub closed spec fn protocol_spec(&self) -> ProtocolCompatManager {
        self.protocol_compat
    }

    /// The deployment settings.
    pub closed spec fn cloud_spec(&self) -> CloudNativeManager {
        self.cloud_native
    }

    /// The market and the tooling.
    pub closed spec fn ecosystem_spec(&self) -> DeveloperEcosystemManager {
        self.developer_ecosystem
    }

    /// The error recovery.
    pub closed spec fn recovery_spec(&self) -> ErrorRecoveryManager {
        self.error_recovery
    }

    /// A core with nothing registered and the default recovery settings.
    pub fn new() -> (r: Self)
        ensures
            r.protocol_spec().mcp_spec().tools_spec().len() == 0,
            r.protocol_spec().mcp_spec().resources_spec().len() == 0,
            r.protocol_spec().openai_spec().assistants_spec().len() == 0,
            r.cloud_spec().kubernetes_spec() is None,
            r.cloud_spec().docker_spec() is None,
            r.cloud_spec().cloud_spec() is None,
            r.ecosystem_spec().market_spec().plugins_spec().len() == 0,
            default_commands(r.ecosystem_spec().cli_spec().commands_spec()),
            default_templates(r.ecosystem_spec().cli_spec().templates_spec()),
            r.recovery_spec().wf(),
            r.recovery_spec().comps().len() == 0,
            r.recovery_spec().errors().len() == 0,
            r.recovery_spec().recoveries().len() == 0,
            r.recovery_spec().config_spec().failure_threshold == 5,
            r.recovery_spec().config_spec().recovery_threshold == 3,
            r.recovery_spec().config_spec().max_retries == 3,
    {
        let config = ErrorRecoveryConfig::default();
        AgentXCore {
            protocol_compat: ProtocolCompatManager::new(),
            cloud_native: CloudNativeManager::new(),
            developer_ecosystem: DeveloperEcosystemManager::new(),
            error_recovery: ErrorRecoveryManager::new(config),
        }
    }

    /// The protocol adapters.
    pub fn protocol_compat(&mut self) -> (r: &mut ProtocolCompatManager)
        ensures
            *r == old(self).protocol_spec(),
            final(self).protocol_spec() == *final(r),
            final(self).cloud_spec() == old(self).cloud_spec(),
            final(self).ecosystem_spec() == old(self).ecosystem_spec(),
            final(self).recovery_spec() == old(self).recovery_spec(),
    {
        &mut self.protocol_compat
    }

    /// The deployment settings.
    pub fn cloud_native(&mut self) -> (r: &mut CloudNativeManager)
        ensures
            *r == old(self).cloud_spec(),
            final(self).cloud_spec() == *final(r),
            final(self).protocol_spec() == old(self).protocol_spec(),
            final(self).ecosystem_spec() == old(self).ecosystem_spec(),
            final(self).recovery_spec() == old(self).recovery_spec(),
    {
        &mut self.cloud_native
    }

    /// The market and the tooling.
    pub fn developer_ecosystem(&mut self) -> (r: &mut DeveloperEcosystemManager)
        ensures
            *r == old(self).ecosystem_spec(),
            final(self).ecosystem_spec() == *final(r),
            final(self).protocol_spec() == old(self).protocol_spec(),
            final(self).cloud_spec() == old(self).cloud_spec(),
            final(self).recovery_spec() == old(self).recovery_spec(),
    {
        &mut self.developer_ecosystem
    }

    /// The error recovery.
    pub fn error_recovery(&self) -> (r: &ErrorRecoveryManager)
        ensures
            *r == self.recovery_spec(),
    {
        &self.error_recovery
    }

    /// Registers the core's own components for recovery: the protocol layer
    /// is retried, the deployment layer restarted and the developer
    /// ecosystem degraded. Every other component stays as it was.
    pub fn initialize(&mut self) -> (r: Result<(), EcosystemError>)
        requires
            old(self).recovery_spec().wf(),
        ensures
            r is Ok,
            final(self).recovery_spec().wf(),
            final(self).recovery_spec().lookup("protocol_compat"@) matches Some(c) && c.strategy == RecoveryStrategy::Retry,
            final(self).recovery_spec().lookup("cloud_native"@) matches Some(c) && c.strategy == RecoveryStrategy::Restart,
            final(self).recovery_spec().lookup("developer_ecosystem"@) matches Some(c) && c.strategy == RecoveryStrategy::Degrade,
            forall|n: Seq<char>| n != "protocol_compat"@ && n != "cloud_native"@ && n != "developer_ecosystem"@
                ==> #[trigger] final(self).recovery_spec().lookup(n) == old(self).recovery_spec().lookup(n),
            final(self).recovery_spec().errors() == old(self).recovery_spec().errors(),
            final(self).recovery_spec().recoveries() == old(self).recovery_spec().recoveries(),
            final(self).protocol_spec() == old(self).protocol_spec(),
            final(self).cloud_spec() == old(self).cloud_spec(),
            final(self).ecosystem_spec() == old(self).ecosystem_spec(),
    {
        proof {
            reveal_strlit("protocol_compat");
            reveal_strlit("cloud_native");
            reveal_strlit("developer_ecosystem");
        }
        assert("protocol_compat"@ != "cloud_native"@) by {
            assert("protocol_compat"@.len() != "cloud_native"@.len());
        }
        assert("protocol_compat"@ != "developer_ecosystem"@) by {
            assert("protocol_compat"@.len() != "developer_ecosystem"@.len());
        }
        assert("cloud_native"@ != "developer_ecosystem"@) by {
            assert("cloud_native"@.len() != "developer_ecosystem"@.len());
        }
        self.error_recovery.register_component("protocol_compat", RecoveryStrategy::Retry);
        let ghost first = self.error_recovery;
        self.error_recovery.register_component("cloud_native", RecoveryStrategy::Restart);
        let ghost second = self.error_recovery;
        assert(second.lookup("protocol_compat"@) == first.lookup("protocol_compat"@));
        self.error_recovery.register_component("developer_ecosystem", RecoveryStrategy::Degrade);
        assert(self.error_recovery.lookup("protocol_compat"@) == second.lookup("protocol_compat"@));
        assert(self.error_recovery.lookup("cloud_native"@) == second.lookup("cloud_native"@));
        Ok(())
    }

    /// The version and the features of the platform.
    pub fn get_system_info(&self) -> (r: SystemInfo)
        ensures
            r.version@ == VERSION@,
            r.features@.map_values(|f: String| f@) == platform_features(),
    {
        let mut features: Vec<String> = Vec::new();
        features.push(String::from_str("协议兼容层"));
        features.push(String::from_str("云原生部署"));
        features.push(String::from_str("开发者生态系统"));
        features.push(String::from_str("插件市场"));
        features.push(String::from_str("CLI工具"));
        features.push(String::from_str("错误恢复和故障处理"));
        features.push(String::from_str("断路器模式"));
        features.push(String::from_str("自动重试机制"));
        assert(features@.map_values(|f: String| f@) =~= platform_features());
        SystemInfo { version: String::from_str(VERSION), features }
    }
}

impl Default for AgentXCore {
    fn default() -> (r: Self)
        ensures
            r.ecosystem_spec().market_spec().plugins_spec().len() == 0,
            r.recovery_spec().wf(),
            r.recovery_spec().comps().len() == 0,
    {
        AgentXCore::new()
    }
}

} // verus!
