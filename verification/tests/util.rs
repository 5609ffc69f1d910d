//! Small rules that several parts of the bot share

use jinx::bot::message::{list_roles, list_users, mention_channel, mention_role, mention_user, Colour};
use jinx::bot::util::{
    assignable_roles, create_role_warning_from_roles, create_role_warning_from_unassignable, deleted_roles,
    error_reply, generate_nonce, highest_mentionable_role, may_be_private, product_display_name, sort_ascending,
    sorted_channels, success_reply, truncate_string_for_discord_autocomplete, GuildRole, IsDeterministic, MessageFlags,
    MessageKind, RetryCheck, RetryThrice,
};
use jinx::time::SimpleTime;

/// Generate some nonces just to make sure there's no panics or anything.
#[test]
fn test_generate_nonce() {
    std::hint::black_box(generate_nonce());
    std::hint::black_box(generate_nonce());
    std::hint::black_box(generate_nonce());
    std::hint::black_box(generate_nonce());
    std::hint::black_box(generate_nonce());
}

#[test]
fn nonces_are_not_all_the_same() {
    let nonces: Vec<u64> = (0..8).map(|_| generate_nonce()).collect();
    assert!(nonces.iter().any(|nonce| *nonce != nonces[0]));
}

#[test]
fn short_display_names_are_kept() {
    assert_eq!(product_display_name("Avatar", Some("1.0")), "Avatar 1.0");
    assert_eq!(product_display_name("Avatar", None), "Avatar (null version)");
    assert_eq!(product_display_name("", Some("")), " ");
}

#[test]
fn display_names_at_the_limit() {
    let product = "p".repeat(60);
    let version = "v".repeat(39);
    let name = product_display_name(&product, Some(&version));
    assert_eq!(name, format!("{product} {version}"));
    assert_eq!(name.chars().count(), 100);
}

#[test]
fn display_names_keep_a_short_version() {
    let product = "p".repeat(90);
    let version = "v".repeat(33);
    let name = product_display_name(&product, Some(&version));
    assert_eq!(name, format!("{} {version}", "p".repeat(66)));
}

#[test]
fn display_names_cut_a_long_version() {
    let product = "p".repeat(90);
    let version = "v".repeat(34);
    let name = product_display_name(&product, Some(&version));
    assert_eq!(name, format!("{} {}", "p".repeat(66), "v".repeat(33)));
    // a short product does not make up for it
    let name = product_display_name("short", Some(&"v".repeat(200)));
    assert_eq!(name, format!("short {}", "v".repeat(33)));
}

#[test]
fn display_names_share_the_limit() {
    let name = product_display_name(&"p".repeat(100), Some(&"v".repeat(100)));
    assert_eq!(name, format!("{} {}", "p".repeat(50), "v".repeat(49)));
    assert_eq!(name.chars().count(), 100);
}

#[test]
fn display_names_without_a_version_are_cut() {
    let name = product_display_name(&"ü".repeat(85), None);
    assert_eq!(name, format!("{} (null version)", "ü".repeat(85)));
    let name = product_display_name(&"ü".repeat(86), None);
    assert_eq!(name, format!("{} (null version)", "ü".repeat(85)));
    assert_eq!(name.chars().count(), 100);
}

#[test]
fn autocomplete_strings_are_cut_by_characters() {
    assert_eq!(truncate_string_for_discord_autocomplete("abc"), "abc");
    assert_eq!(truncate_string_for_discord_autocomplete(&"→".repeat(100)), "→".repeat(100));
    assert_eq!(truncate_string_for_discord_autocomplete(&"→".repeat(101)), "→".repeat(100));
}

#[test]
fn mentions() {
    assert_eq!(mention_user(12), "<@12>");
    assert_eq!(mention_role(0), "<@&0>");
    assert_eq!(mention_channel(u64::MAX), "<#18446744073709551615>");
    assert_eq!(list_users(&[3, 1]), "\n- <@3>\n- <@1>");
    assert_eq!(list_roles(&[]), "");
    assert_eq!(list_roles(&[10]), "\n- <@&10>");
}

#[test]
fn replies_have_colours() {
    let reply = success_reply("Success", "Done!".to_string());
    assert_eq!(
        (reply.title.as_str(), reply.description.as_str(), reply.colour),
        ("Success", "Done!", Some(Colour::DarkGreen))
    );
    let reply = error_reply("Error", "Oh no".to_string());
    assert_eq!(reply.colour, Some(Colour::Red));
}

#[test]
fn sorting() {
    let mut numbers = vec![3, 1, 2, 1];
    sort_ascending(&mut numbers);
    assert_eq!(numbers, vec![1, 1, 2, 3]);
    let mut none: Vec<u64> = Vec::new();
    sort_ascending(&mut none);
    assert!(none.is_empty());
}

#[test]
fn role_warnings() {
    assert!(create_role_warning_from_unassignable(Vec::new()).is_none());
    assert!(create_role_warning_from_roles(&[1, 2], &[2, 1]).is_none());
    let warning = create_role_warning_from_roles(&[1], &[3, 1, 2, 3]).expect("two roles cannot be granted");
    assert_eq!(warning.title, "Warning");
    assert_eq!(
        warning.description,
        "I don't currently have access to grant the following roles. Please check bot permissions.\n- <@&2>\n- <@&3>"
    );
    assert_eq!(warning.colour, Some(Colour::Orange));
}

fn role(role_id: u64, position: u16, mentionable: bool, managed: bool) -> GuildRole {
    GuildRole {
        role_id,
        position,
        mentionable,
        managed,
    }
}

#[test]
fn highest_role() {
    assert_eq!(highest_mentionable_role(&[]), None);
    assert_eq!(highest_mentionable_role(&[role(1, 9, false, false)]), None);
    let roles = [
        role(1, 9, false, false),
        role(7, 4, true, false),
        role(5, 4, true, false),
        role(2, 3, true, false),
    ];
    // bigger position is better, then smaller ID is better
    assert_eq!(highest_mentionable_role(&roles), Some(5));
}

#[test]
fn channels_in_order() {
    let channels = [(2, 10), (1, 5), (1, 9), (0, 1)];
    assert_eq!(sorted_channels(&channels), vec![(0, 1), (1, 9), (1, 5), (2, 10)]);
}

#[test]
fn roles_that_can_be_granted() {
    let roles = [
        role(1, 0, false, false), // everyone
        role(2, 3, false, false),
        role(3, 3, false, true), // managed
        role(4, 5, false, false), // as high as the bot
        role(5, 4, false, false),
    ];
    assert_eq!(assignable_roles(&roles, true, Some(5), Some(1)), vec![2, 5]);
    assert_eq!(assignable_roles(&roles, true, Some(5), None), vec![1, 2, 5]);
    assert!(assignable_roles(&roles, false, Some(5), Some(1)).is_empty());
    assert!(assignable_roles(&roles, true, None, Some(1)).is_empty());
}

#[test]
fn roles_that_are_gone() {
    assert_eq!(deleted_roles(&[1, 2, 3], &[2]), vec![1, 3]);
    assert!(deleted_roles(&[1], &[1, 2]).is_empty());
}

struct Flaky {
    deterministic: bool,
}

impl IsDeterministic for Flaky {
    fn is_deterministic(&self) -> bool {
        self.deterministic
    }
}

#[test]
fn retries_are_limited() {
    let mut attempts = RetryThrice::new();
    let failure: Result<(), Flaky> = Err(Flaky { deterministic: false });
    assert_eq!(attempts.check(&failure), RetryCheck::RetryAfter(300));
    assert_eq!(attempts.check(&failure), RetryCheck::RetryAfter(3_000));
    assert_eq!(attempts.check(&failure), RetryCheck::RetryAfter(10_000));
    assert_eq!(attempts.check(&failure), RetryCheck::DoNotRetry);
    assert_eq!(attempts.check(&failure), RetryCheck::DoNotRetry);
}

#[test]
fn some_results_are_final() {
    let mut attempts = RetryThrice::new();
    let failure: Result<(), Flaky> = Err(Flaky { deterministic: true });
    assert_eq!(attempts.check(&failure), RetryCheck::DoNotRetry);
    let success: Result<u8, Flaky> = Ok(1);
    assert_eq!(attempts.check(&success), RetryCheck::DoNotRetry);
    assert_eq!(attempts.after_attempt(true, false), RetryCheck::DoNotRetry);
    assert_eq!(attempts.after_attempt(false, true), RetryCheck::DoNotRetry);
    assert_eq!(attempts.after_attempt(false, false), RetryCheck::RetryAfter(300));
}

#[test]
fn private_messages() {
    let ordinary = MessageFlags {
        crosspost: false,
        voice_message: false,
        ephemeral: false,
        loading: false,
        urgent: false,
    };
    assert!(may_be_private(None, Some(MessageKind::Regular), None));
    assert!(may_be_private(None, Some(MessageKind::InlineReply), Some(ordinary)));
    assert!(!may_be_private(Some(1), Some(MessageKind::Regular), None));
    assert!(!may_be_private(None, Some(MessageKind::Other), None));
    assert!(!may_be_private(None, None, None));
    let urgent = MessageFlags { urgent: true, ..ordinary };
    assert!(!may_be_private(None, Some(MessageKind::Regular), Some(urgent)));
}

#[test]
fn durations() {
    let earlier = SimpleTime::from_unix_millis(1_000);
    let later = SimpleTime::from_unix_millis(1_250);
    assert_eq!(later.duration_since(earlier), 250);
    assert_eq!(earlier.duration_since(later), 0);
    assert_eq!(earlier.duration_since(earlier), 0);
    assert_eq!(later.as_epoch_millis(), 1_250);
    assert_eq!(SimpleTime::unix_epoch().as_epoch_millis(), 0);
}

#[test]
fn clock_readings() {
    assert_eq!(SimpleTime::from_clock(None), SimpleTime::unix_epoch());
    assert_eq!(SimpleTime::from_clock(Some(1_250)).as_epoch_millis(), 1_250);
    let last = u128::from(u64::MAX);
    assert_eq!(SimpleTime::from_clock(Some(last)).as_epoch_millis(), u64::MAX);
    assert_eq!(SimpleTime::from_clock(Some(last + 1)), SimpleTime::unix_epoch());
    assert_eq!(SimpleTime::from_clock(Some(last + 8)).as_epoch_millis(), 7);
    assert_eq!(SimpleTime::from_clock(Some(u128::MAX)).as_epoch_millis(), u64::MAX);
}

#[test]
fn times_are_ordered_by_their_milliseconds() {
    for (x, y) in [(0, 0), (0, 1), (1, 0), (5, u64::MAX), (u64::MAX, u64::MAX)] {
        let (a, b) = (SimpleTime::from_unix_millis(x), SimpleTime::from_unix_millis(y));
        assert_eq!(a.as_epoch_millis(), x);
        assert_eq!(a < b, x < y);
        assert_eq!(a <= b, x <= y);
        assert_eq!(a > b, x > y);
        assert_eq!(a == b, x == y);
        assert_eq!(a.cmp(&b), x.cmp(&y));
        assert_eq!(a.partial_cmp(&b), Some(a.cmp(&b)));
    }
}

#[test]
fn the_clock_runs() {
    // any time after 2020 will do
    let now = SimpleTime::now();
    assert!(now.as_epoch_millis() > 1_577_836_800_000);
    assert!(SimpleTime::unix_epoch().elapsed() >= now.as_epoch_millis());
}
