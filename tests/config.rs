use port_kill::config::{AppConfig, Config, DiscoveryConfig, DiscoveryMode, IgnoreConfig, PortRange, PortsConfig};

#[test]
fn test_default_config() {
    let config = Config::default();
    assert_eq!(config.discovery.mode, DiscoveryMode::Range);
    assert!(!config.get_ports_to_monitor().is_empty());
    assert!(!config.is_discover_all());
}

#[test]
fn test_get_ports_to_monitor_range() {
    let config = Config {
        discovery: DiscoveryConfig { mode: DiscoveryMode::Range },
        ports: PortsConfig {
            ranges: vec![
                PortRange { start: 3000, end: 3002, description: "Test".to_string() },
                PortRange { start: 8000, end: 8001, description: "Test".to_string() },
            ],
            specific: vec![],
        },
        ignore: IgnoreConfig { ports: vec![], processes: vec![] },
        app: AppConfig::default(),
    };

    let ports = config.get_ports_to_monitor();
    assert_eq!(ports, vec![3000, 3001, 3002, 8000, 8001]);
}

#[test]
fn test_get_ports_to_monitor_specific() {
    let config = Config {
        discovery: DiscoveryConfig { mode: DiscoveryMode::Specific },
        ports: PortsConfig {
            ranges: vec![],
            specific: vec![3000, 8080],
        },
        ignore: IgnoreConfig { ports: vec![], processes: vec![] },
        app: AppConfig::default(),
    };

    let ports = config.get_ports_to_monitor();
    assert_eq!(ports, vec![3000, 8080]);
}

#[test]
fn test_is_discover_all() {
    let config = Config {
        discovery: DiscoveryConfig { mode: DiscoveryMode::All },
        ports: PortsConfig { ranges: vec![], specific: vec![] },
        ignore: IgnoreConfig { ports: vec![], processes: vec![] },
        app: AppConfig::default(),
    };

    assert!(config.is_discover_all());
    assert!(config.get_ports_to_monitor().is_empty());
}

fn config_with(mode: DiscoveryMode, ranges: Vec<PortRange>, specific: Vec<u16>) -> Config {
    Config {
        discovery: DiscoveryConfig { mode },
        ports: PortsConfig { ranges, specific },
        ignore: IgnoreConfig { ports: vec![8080, 8080], processes: vec!["Figma".to_string(), "Figma".to_string(), "node".to_string()] },
        app: AppConfig::default(),
    }
}

#[test]
fn default_config_values() {
    let config = Config::default();
    assert_eq!(config.get_ports_to_monitor().len(), 33);
    assert_eq!(config.ports.specific, vec![3000, 3001, 5000, 5173, 8000, 8080]);
    assert_eq!(config.ignore.ports, vec![5353, 7000]);
    assert_eq!(config.ignore.processes.len(), 9);
    assert_eq!(config.app.monitoring_interval_seconds, 3);
    assert_eq!(config.app.menu_update_cooldown_seconds, 2);
    assert_eq!(config.app.max_processes_in_menu, 20);
    assert!(!config.app.show_process_ids);
}

#[test]
fn reversed_range_gives_no_ports() {
    let config = config_with(
        DiscoveryMode::Range,
        vec![
            PortRange { start: 10, end: 5, description: "empty".to_string() },
            PortRange { start: 65534, end: 65535, description: "top".to_string() },
        ],
        vec![],
    );
    assert_eq!(config.get_ports_to_monitor(), vec![65534, 65535]);
}

#[test]
fn ignore_sets_from_config() {
    let config = config_with(DiscoveryMode::All, vec![], vec![]);
    let ports = config.get_ignore_ports_set();
    assert_eq!(ports.len(), 1);
    assert!(ports.contains(&8080));
    let names = config.get_ignore_processes_set();
    assert_eq!(names.len(), 2);
    assert!(names.contains(&"Figma".to_string()));
    assert!(names.contains(&"node".to_string()));
    assert!(!names.contains(&"Figm".to_string()));
}

#[test]
fn monitoring_description_per_mode() {
    let all = config_with(DiscoveryMode::All, vec![], vec![]);
    assert_eq!(all.get_monitoring_description(), "auto-discovering ALL listening processes on ANY port");
    let specific = config_with(DiscoveryMode::Specific, vec![], vec![3000, 8080, 5]);
    assert_eq!(specific.get_monitoring_description(), "specific ports: 3000, 8080, 5");
    let range = config_with(
        DiscoveryMode::Range,
        vec![
            PortRange { start: 3000, end: 3010, description: "web".to_string() },
            PortRange { start: 0, end: 65535, description: "all of them".to_string() },
        ],
        vec![],
    );
    assert_eq!(range.get_monitoring_description(), "port ranges: 3000-3010 (web), 0-65535 (all of them)");
}
