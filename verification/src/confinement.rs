//! The confinement profile: the runtime flags that every sandbox runs under.
//!
//! The profile is fixed. It is built from literals only and consults nothing
//! on the host, so every invocation in every process gets the same list in
//! the same order.

use vstd::prelude::*;

verus! {

broadcast use vstd::string::group_string_axioms;

/// Container output is sent to a log driver that discards it, so that
/// nothing derived from the document is kept in host logs.
pub open spec fn no_log_persistence() -> Seq<Seq<char>> {
    seq!["--log-driver"@, "none"@]
}

/// The sandbox may not gain privileges during its lifetime.
pub open spec fn no_privilege_escalation() -> Seq<Seq<char>> {
    seq!["--security-opt"@, "no-new-privileges"@]
}

/// Every capability is dropped and only the one needed to change root,
/// which the converter uses for its own setup, is given back.
pub open spec fn minimal_capabilities() -> Seq<Seq<char>> {
    seq!["--cap-drop"@, "all"@, "--cap-add"@, "SYS_CHROOT"@]
}

/// The container is labelled for the container-engine domain of the host's
/// mandatory access control policy.
pub open spec fn access_control_label() -> Seq<Seq<char>> {
    seq!["--security-opt"@, "label=type:container_engine_t"@]
}

/// The sandbox has no network: no interfaces, no resolver, no routes.
pub open spec fn network_disabled() -> Seq<Seq<char>> {
    seq!["--network=none"@]
}

/// The process in the sandbox runs as a dedicated unprivileged user.
pub open spec fn unprivileged_user() -> Seq<Seq<char>> {
    seq!["-u"@, "dangerzone"@]
}

/// The confinement profile, element by element, in the order it is emitted.
pub open spec fn security_args() -> Seq<Seq<char>> {
    no_log_persistence() + no_privilege_escalation() + minimal_capabilities()
        + access_control_label() + network_disabled() + unprivileged_user()
}

/// Builds the confinement profile.
///
/// The result is the same list on every call, and it switches networking
/// off exactly once.
pub fn get_security_args() -> (args: Vec<String>)
    ensures
        args.deep_view() == security_args(),
        network_disabled_only_at(args.deep_view(), network_flag_index()),
{
    proof {
        lemma_profile_disables_network();
    }
    let args = vec![
        "--log-driver".to_string(),
        "none".to_string(),
        "--security-opt".to_string(),
        "no-new-privileges".to_string(),
        "--cap-drop".to_string(),
        "all".to_string(),
        "--cap-add".to_string(),
        "SYS_CHROOT".to_string(),
        "--security-opt".to_string(),
        "label=type:container_engine_t".to_string(),
        "--network=none".to_string(),
        "-u".to_string(),
        "dangerzone".to_string(),
    ];
    assert(args.deep_view() =~= security_args());
    args
}

/// True of the argument that switches networking off.
pub open spec fn disables_network(arg: Seq<char>) -> bool {
    arg == "--network=none"@
}

/// True of every argument that addresses the runtime's network option, in
/// its long or its short spelling, with or without a value.
pub open spec fn names_network(arg: Seq<char>) -> bool {
    "--net"@.is_prefix_of(arg)
}

/// The argument at `at` switches networking off and no other argument
/// addresses the network option at all.
pub open spec fn network_disabled_only_at(args: Seq<Seq<char>>, at: int) -> bool {
    &&& 0 <= at < args.len()
    &&& disables_network(args[at])
    &&& forall|j: int| 0 <= j < args.len() && j != at ==> !names_network(#[trigger] args[j])
}

/// Where networking is switched off at one position only, no second
/// switch hides elsewhere in the list: the list holds exactly one.
pub proof fn lemma_network_switch_is_unique(args: Seq<Seq<char>>, at: int)
    requires
        network_disabled_only_at(args, at),
    ensures
        forall|j: int| 0 <= j < args.len() && disables_network(#[trigger] args[j]) ==> j == at,
{
    reveal_strlit("--net");
    reveal_strlit("--network=none");
    assert("--net"@ =~= "--network=none"@.subrange(0, 5));
    assert forall|j: int| 0 <= j < args.len() && disables_network(#[trigger] args[j]) implies j
        == at by {
        assert(names_network(args[j]));
    }
}

/// Position of the network switch within the profile.
pub open spec fn network_flag_index() -> int {
    10
}

/// An argument that is too short, or differs from the network option's
/// spelling at position `k`, does not address the network option.
pub proof fn lemma_mismatch_is_not_network(arg: Seq<char>, k: int)
    requires
        0 <= k < "--net"@.len(),
        k < arg.len() ==> arg[k] != "--net"@[k],
    ensures
        !names_network(arg),
{
    let prefix = "--net"@;
    if prefix.is_prefix_of(arg) {
        assert(arg.subrange(0, prefix.len() as int)[k] == arg[k]);
    }
}

/// The profile switches networking off exactly once and holds no other
/// argument that could switch it back on.
pub proof fn lemma_profile_disables_network()
    ensures
        security_args().len() == 13,
        network_disabled_only_at(security_args(), network_flag_index()),
{
    reveal_strlit("--net");
    reveal_strlit("--log-driver");
    reveal_strlit("none");
    reveal_strlit("--security-opt");
    reveal_strlit("no-new-privileges");
    reveal_strlit("--cap-drop");
    reveal_strlit("all");
    reveal_strlit("--cap-add");
    reveal_strlit("SYS_CHROOT");
    reveal_strlit("label=type:container_engine_t");
    reveal_strlit("-u");
    reveal_strlit("dangerzone");
    let args = security_args();
    lemma_mismatch_is_not_network(args[0], 2);
    lemma_mismatch_is_not_network(args[1], 0);
    lemma_mismatch_is_not_network(args[2], 2);
    lemma_mismatch_is_not_network(args[3], 0);
    lemma_mismatch_is_not_network(args[4], 2);
    lemma_mismatch_is_not_network(args[5], 0);
    lemma_mismatch_is_not_network(args[6], 2);
    lemma_mismatch_is_not_network(args[7], 0);
    lemma_mismatch_is_not_network(args[8], 2);
    lemma_mismatch_is_not_network(args[9], 0);
    lemma_mismatch_is_not_network(args[11], 1);
    lemma_mismatch_is_not_network(args[12], 0);
}

} // verus!
