use contain::idgen::{fresh_tap_suffix, fresh_vm_id};
use contain::tapd::{
    decide_tap_create, decide_tap_delete, fresh_tap_name, tap_create_outcome,
    tap_delete_outcome, TapCreateDecision, TapDeleteDecision,
};

#[test]
fn create_builds_both_ip_commands() {
    let suffix = "abc1234".to_string();
    let d = decide_tap_create("{\"user\":\"alice\"}", &suffix);
    match d {
        TapCreateDecision::Run(plan) => {
            assert_eq!(plan.name, "contain-abc1234");
            assert_eq!(
                plan.add_cmd,
                vec![
                    "ip".to_string(),
                    "tuntap".to_string(),
                    "add".to_string(),
                    "name".to_string(),
                    "contain-abc1234".to_string(),
                    "mode".to_string(),
                    "tap".to_string(),
                    "user".to_string(),
                    "alice".to_string(),
                    "vnet_hdr".to_string(),
                    "multi_queue".to_string(),
                ]
            );
            assert_eq!(
                plan.up_cmd,
                vec![
                    "ip".to_string(),
                    "link".to_string(),
                    "set".to_string(),
                    "contain-abc1234".to_string(),
                    "up".to_string(),
                ]
            );
        }
        other => panic!("unexpected decision {other:?}"),
    }
}

#[test]
fn create_rejects_invalid_user_with_400() {
    let suffix = "abc1234".to_string();
    assert_eq!(
        decide_tap_create("{\"user\":\"bad user\"}", &suffix),
        TapCreateDecision::Reject(400)
    );
    assert_eq!(
        decide_tap_create("{\"user\":\"\"}", &suffix),
        TapCreateDecision::Reject(400)
    );
    assert_eq!(decide_tap_create("not json", &suffix), TapCreateDecision::Reject(400));
}

#[test]
fn create_status_codes() {
    assert_eq!(tap_create_outcome(true, true), 201);
    assert_eq!(tap_create_outcome(false, false), 500);
    assert_eq!(tap_create_outcome(true, false), 500);
}

#[test]
fn delete_refuses_unmanaged_names_with_403() {
    assert_eq!(
        decide_tap_delete("{\"name\":\"eth0\"}"),
        TapDeleteDecision::Reject(403)
    );
    assert_eq!(
        decide_tap_delete("{\"name\":\"contain\"}"),
        TapDeleteDecision::Reject(403)
    );
    assert_eq!(decide_tap_delete("nope"), TapDeleteDecision::Reject(400));
}

#[test]
fn delete_builds_link_delete_for_managed_names() {
    let d = decide_tap_delete("{\"name\":\"contain-abc123\"}");
    match d {
        TapDeleteDecision::Run(argv) => assert_eq!(
            argv,
            vec![
                "ip".to_string(),
                "link".to_string(),
                "delete".to_string(),
                "contain-abc123".to_string(),
            ]
        ),
        other => panic!("unexpected decision {other:?}"),
    }
}

#[test]
fn delete_status_codes() {
    assert_eq!(tap_delete_outcome(true), 202);
    assert_eq!(tap_delete_outcome(false), 500);
}

#[test]
fn fresh_names_carry_the_managed_prefix() {
    for _ in 0..32 {
        let name = fresh_tap_name();
        assert_eq!(name.len(), 15);
        assert!(name.starts_with("contain-"));
        assert!(name[8..].chars().all(|c| c.is_ascii_alphanumeric()));
    }
}

#[test]
fn fresh_suffixes_are_short_alphanumeric() {
    for _ in 0..32 {
        let s = fresh_tap_suffix();
        assert_eq!(s.len(), 7);
        assert!(s.chars().all(|c| c.is_ascii_alphanumeric()));
    }
}

#[test]
fn vm_ids_are_32_hex_characters() {
    let a = fresh_vm_id();
    let b = fresh_vm_id();
    assert_eq!(a.len(), 32);
    assert!(a.chars().all(|c| c.is_ascii_hexdigit() && !c.is_ascii_uppercase()));
    // 128 random bits: two draws almost surely differ
    assert_ne!(a, b);
}
