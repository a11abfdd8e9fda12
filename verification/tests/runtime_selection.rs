use sandbox_pipeline::runtime::{
    get_runtime_name, select_runtime, RuntimeDescriptor, RuntimePreference,
};

#[test]
fn runtime_name_defaults_to_podman() {
    assert_eq!(get_runtime_name(false), "podman");
}

#[test]
fn runtime_name_is_docker_when_asked() {
    assert_eq!(get_runtime_name(true), "docker");
}

#[test]
fn preference_follows_the_switch() {
    assert_eq!(RuntimePreference::from_use_docker(false), RuntimePreference::Rootless);
    assert_eq!(RuntimePreference::from_use_docker(true), RuntimePreference::Daemon);
}

#[test]
fn descriptor_names_the_executable() {
    assert_eq!(
        select_runtime(RuntimePreference::Rootless),
        RuntimeDescriptor { preference: RuntimePreference::Rootless, executable: "podman" }
    );
    assert_eq!(
        select_runtime(RuntimePreference::Daemon),
        RuntimeDescriptor { preference: RuntimePreference::Daemon, executable: "docker" }
    );
}

#[test]
fn descriptor_agrees_with_runtime_name() {
    for use_docker in [false, true] {
        let preference = RuntimePreference::from_use_docker(use_docker);
        assert_eq!(select_runtime(preference).executable, get_runtime_name(use_docker));
    }
}

#[test]
fn rootless_runtime_is_the_default() {
    assert_eq!(RuntimePreference::default(), RuntimePreference::Rootless);
    assert_eq!(select_runtime(RuntimePreference::default()).executable, "podman");
}
