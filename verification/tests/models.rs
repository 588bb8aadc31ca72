//! Tests of the data models: permission decoding and client-facing views.

use loved_core::entities::{RoleModel, SubmissionModel, UserModel};
use loved_core::environment::LovedEnvironment;
use loved_core::roles::{self, FullRole, Permissions};
use loved_core::submissions::FullSubmission;
use loved_core::users::{DisplayUser, FullUser};

fn role_model(id: i32, permissions: i64) -> RoleModel {
    RoleModel {
        id,
        name: format!("role-{}", id),
        role_type: 0,
        permissions,
        has_gamemode: false,
    }
}

fn user_model(id: i32) -> UserModel {
    UserModel {
        id,
        username: String::from("someone"),
        country: Some(String::from("DE")),
        restricted: false,
        api_fetched_at: 1_740_000_000,
        tokens: String::from("{}"),
    }
}

#[test]
fn permissions_decode_only_defined_bits() {
    assert_eq!(Permissions::from_bits(0), Some(Permissions { bits: 0 }));
    assert_eq!(
        Permissions::from_bits(roles::ADMIN | roles::MANAGE_ROUNDS),
        Some(Permissions { bits: 0b10001 })
    );
    assert_eq!(Permissions::from_bits(roles::ALL_PERMISSIONS), Some(Permissions { bits: 511 }));
    assert_eq!(Permissions::from_bits(1 << 9), None);
    assert_eq!(Permissions::from_bits(-1), None);
}

#[test]
fn permissions_contains_checks_every_flag() {
    let p = Permissions { bits: roles::ADMIN | roles::VIEW_ROUNDS };
    assert!(p.contains(Permissions { bits: roles::ADMIN }));
    assert!(p.contains(Permissions { bits: roles::ADMIN | roles::VIEW_ROUNDS }));
    assert!(!p.contains(Permissions { bits: roles::MANAGE_ROLES }));
    assert!(p.contains(Permissions::empty()));
}

#[test]
fn full_role_decodes_permissions_or_falls_back_to_empty() {
    let good = FullRole::from(role_model(1, roles::MANAGE_PICKS));
    assert_eq!(good.permissions.bits, roles::MANAGE_PICKS);
    let bad = FullRole::from(role_model(2, (1 << 40) | roles::ADMIN));
    assert_eq!(bad.permissions.bits, 0);
    assert_eq!(bad.base.id, 2);
}

#[test]
fn role_display_carries_base_and_id() {
    let role = FullRole::from(role_model(7, roles::ADMIN));
    let display = role.into_display();
    assert_eq!(display.id, 7);
    assert_eq!(display.base, role_model(7, roles::ADMIN));
}

#[test]
fn user_display_carries_fields_and_role_views() {
    let roles_of_user = vec![
        FullRole::from(role_model(1, roles::ADMIN)),
        FullRole::from(role_model(2, roles::VIEW_ROUNDS)),
    ];
    let user = FullUser::from(user_model(42), roles_of_user);
    let display = user.into_display();
    assert_eq!(display.id, 42);
    assert_eq!(display.username, "someone");
    assert_eq!(display.country, Some(String::from("DE")));
    assert!(!display.restricted);
    assert_eq!(display.roles.len(), 2);
    assert_eq!(display.roles[0].id, 1);
    assert_eq!(display.roles[1].id, 2);
}

#[test]
fn default_display_user_is_the_placeholder() {
    let d = DisplayUser::default();
    assert_eq!(d.id, 0);
    assert_eq!(d.username, "");
    assert_eq!(d.country, None);
    assert!(!d.restricted);
    assert!(d.roles.is_empty());
}

#[test]
fn submission_display_nests_the_submitter_view() {
    let base = SubmissionModel {
        id: 9,
        submitter_id: 42,
        beatmapset_id: 3,
        submitted_at: 1_740_000_000,
        game_mode: 0,
        reason: String::from("a lovely map"),
    };
    let submitter = FullUser::from(user_model(42), Vec::new());
    let submission = FullSubmission { base, submitter };
    let display = submission.into_display();
    assert_eq!(display.id, 9);
    assert_eq!(display.base.reason, "a lovely map");
    assert_eq!(display.submitter.id, 42);
    assert!(display.submitter.roles.is_empty());
}

#[test]
fn environment_holds_the_configured_addresses() {
    let env = LovedEnvironment::new(
        String::from("postgres://localhost/loved"),
        String::from("redis://127.0.0.1/"),
    );
    assert_eq!(env.database_url, "postgres://localhost/loved");
    assert_eq!(env.redis_url, "redis://127.0.0.1/");
    let copy = env.clone();
    assert_eq!(copy.database_url, env.database_url);
    let mut env = env;
    env.initialize(String::from("postgres://db/loved"), String::from("redis://cache/"));
    assert_eq!(env.database_url, "postgres://db/loved");
    assert_eq!(env.redis_url, "redis://cache/");
}
