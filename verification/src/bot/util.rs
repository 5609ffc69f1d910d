//! Small rules that several parts of the bot share.

use super::message::{list_roles, role_bullets, Colour, Embed, EmbedView};
use vstd::prelude::*;

verus! {

/// Discord's limit on the length of an autocomplete choice, in characters
pub const AUTOCOMPLETE_CHARACTER_LIMIT: usize = 100;

/// Discord's limit on the number of autocomplete choices
pub const AUTOCOMPLETE_RESULT_LIMIT: usize = 25;

/// The length that a version name is cut to when it has to give way to a product name
pub const PRODUCT_VERSION_MAX_LENGTH: usize = 33;

/// A text cut to a number of characters.
pub open spec fn cut(s: Seq<char>, max: int) -> Seq<char> {
    if s.len() > max {
        s.take(max)
    } else {
        s
    }
}

/// Cut a text to a number of characters
pub fn cut_text(s: &str, max: usize) -> (r: String)
    ensures
        r@ == cut(s@, max as int),
{
    let len: usize = s.unicode_len();
    if len > max {
        let head = s.substring_char(0, max);
        proof {
            assert(head@ =~= s@.take(max as int));
        }
        head.to_owned()
    } else {
        s.to_owned()
    }
}

/// The name that a product, or a version of it, is shown under.
///
/// A product without a version has a suffix that says so. A product and a version are delimited with a single
/// space. Where the two are too long for Discord: if each of them alone would fill the limit, they share it;
/// otherwise a version of moderate length is kept as it is and a longer one is cut to that length, and the product
/// gets the rest.
pub open spec fn display_name(product: Seq<char>, version: Option<Seq<char>>) -> Seq<char> {
    match version {
        None => cut(product, 85) + " (null version)"@,
        Some(version) => if product.len() + version.len() <= 99 {
            product + " "@ + version
        } else if product.len() > 99 && version.len() > 99 {
            cut(product, 50) + " "@ + cut(version, 49)
        } else if version.len() <= PRODUCT_VERSION_MAX_LENGTH {
            cut(product, 99 - version.len()) + " "@ + version
        } else {
            cut(product, 66) + " "@ + cut(version, PRODUCT_VERSION_MAX_LENGTH as int)
        },
    }
}

/// Get a display name from a product name and a version name.
/// This is truncated to Discord's 100 character autocomplete limit, which is taken to be one of codepoints and
/// not of code units (bytes).
pub fn product_display_name(product_name: &str, product_version_name: Option<&str>) -> (r: String)
    ensures
        r@ == display_name(
            product_name@,
            match product_version_name {
                Some(name) => Some(name@),
                None => None,
            },
        ),
{
    match product_version_name {
        Some(product_version_name) => {
            // the delimiter takes 1 char, which leaves 99 chars to work with
            let max_length: usize = AUTOCOMPLETE_CHARACTER_LIMIT - 1;
            let product_name_len: usize = product_name.unicode_len();
            let product_version_len: usize = product_version_name.unicode_len();
            if product_name_len <= max_length && product_version_len <= max_length - product_name_len {
                return product_name.to_owned().concat(" ").concat(product_version_name);
            }
            if product_name_len > max_length && product_version_len > max_length {
                // everything is really long
                let length_a: usize = 50;
                let length_b: usize = max_length - length_a;
                cut_text(product_name, length_a).concat(" ").concat(cut_text(product_version_name, length_b).as_str())
            } else if product_version_len <= PRODUCT_VERSION_MAX_LENGTH {
                // product version seems short-ish, so it doesn't need trimming
                cut_text(product_name, max_length - product_version_len).concat(" ").concat(product_version_name)
            } else {
                let length_a: usize = max_length - PRODUCT_VERSION_MAX_LENGTH;
                cut_text(product_name, length_a).concat(" ").concat(
                    cut_text(product_version_name, PRODUCT_VERSION_MAX_LENGTH).as_str(),
                )
            }
        }
        None => cut_text(product_name, AUTOCOMPLETE_CHARACTER_LIMIT - 15).concat(" (null version)"),
    }
}

/// A display name is never longer than Discord allows, and never empty.
pub proof fn display_name_fits(product: Seq<char>, version: Option<Seq<char>>)
    ensures
        0 < display_name(product, version).len() <= AUTOCOMPLETE_CHARACTER_LIMIT,
{
    reveal_strlit(" ");
    reveal_strlit(" (null version)");
}

/// truncate a string to meet Discord's 100 character autocomplete limit
pub fn truncate_string_for_discord_autocomplete(string: &str) -> (r: String)
    ensures
        r@ == cut(string@, AUTOCOMPLETE_CHARACTER_LIMIT as int),
        r@.len() <= AUTOCOMPLETE_CHARACTER_LIMIT,
{
    cut_text(string, AUTOCOMPLETE_CHARACTER_LIMIT)
}

/// The order of numbers.
pub open spec fn number_order() -> spec_fn(u64, u64) -> bool {
    |a: u64, b: u64| a <= b
}

/// Numbers in ascending order.
pub open spec fn ascending(numbers: Seq<u64>) -> Seq<u64> {
    numbers.sort_by(number_order())
}

/// Sort numbers in ascending order
pub fn sort_ascending(numbers: &mut Vec<u64>)
    ensures
        final(numbers)@ == ascending(old(numbers)@),
{
    let mut sorted: Vec<u64> = Vec::new();
    let ghost all = numbers@;
    proof {
        assert(all.take(0) =~= Seq::<u64>::empty());
    }
    for i in 0..numbers.len()
        invariant
            numbers@ == all,
            forall|k: int, l: int| 0 <= k < l < sorted@.len() ==> sorted@[k] <= sorted@[l],
            sorted@.len() == i,
            sorted@.to_multiset() == all.take(i as int).to_multiset(),
    {
        let number: u64 = numbers[i];
        let mut position: usize = 0;
        while position < sorted.len() && sorted[position] <= number
            invariant
                position <= sorted@.len(),
                forall|k: int| 0 <= k < position ==> sorted@[k] <= number,
            decreases sorted@.len() - position,
        {
            position = position + 1;
        }
        let ghost before = sorted@;
        sorted.insert(position, number);
        proof {
            vstd::seq_lib::to_multiset_insert(before, position as int, number);
            all.take(i as int).to_multiset_ensures();
            assert(all.take(i + 1) =~= all.take(i as int).push(number));
        }
    }
    proof {
        assert(all.take(all.len() as int) =~= all);
        all.lemma_sort_by_ensures(number_order());
        assert(vstd::relations::sorted_by(sorted@, number_order()));
        vstd::seq_lib::lemma_sorted_unique(sorted@, ascending(all), number_order());
    }
    *numbers = sorted;
}

/// Whether an ID is among others
pub fn contains_id(ids: &[u64], id: u64) -> (r: bool)
    ensures
        r == ids@.contains(id),
{
    for i in 0..ids.len()
        invariant
            forall|j: int| 0 <= j < i ==> ids@[j] != id,
    {
        if ids[i] == id {
            return true;
        }
    }
    false
}

/// The warning that some roles cannot be granted.
pub open spec fn role_warning(unassignable_roles: Seq<u64>) -> Option<EmbedView> {
    if unassignable_roles.len() == 0 {
        None
    } else {
        Some(
            EmbedView {
                title: "Warning"@,
                description: "I don't currently have access to grant the following roles. Please check bot permissions."@
                    + role_bullets(ascending(unassignable_roles)),
                colour: Some(Colour::Orange),
            },
        )
    }
}

/// What an optional embed shows.
pub open spec fn shown_embed(embed: Option<Embed>) -> Option<EmbedView> {
    match embed {
        Some(embed) => Some(embed@),
        None => None,
    }
}

/// The roles that cannot be granted, each of them once.
pub open spec fn unassignable(assignable_roles: Seq<u64>, roles: Seq<u64>) -> Seq<u64>
    decreases roles.len(),
{
    if roles.len() == 0 {
        roles
    } else {
        let others = unassignable(assignable_roles, roles.drop_last());
        if assignable_roles.contains(roles.last()) || others.contains(roles.last()) {
            others
        } else {
            others.push(roles.last())
        }
    }
}

/// warn if the roles cannot be assigned (too high, or we lack the perm)
pub fn create_role_warning_from_roles(assignable_roles: &[u64], roles: &[u64]) -> (r: Option<Embed>)
    ensures
        shown_embed(r) == role_warning(unassignable(assignable_roles@, roles@)),
{
    let mut unassignable_roles: Vec<u64> = Vec::new();
    for i in 0..roles.len()
        invariant
            unassignable_roles@ == unassignable(assignable_roles@, roles@.take(i as int)),
    {
        proof {
            assert(roles@.take(i + 1).drop_last() =~= roles@.take(i as int));
        }
        let role: u64 = roles[i];
        if !contains_id(assignable_roles, role) && !contains_id(unassignable_roles.as_slice(), role) {
            unassignable_roles.push(role);
        }
    }
    proof {
        assert(roles@.take(roles@.len() as int) =~= roles@);
    }
    create_role_warning_from_unassignable(unassignable_roles)
}

/// warn if the roles cannot be assigned (too high, or we lack the perm)
pub fn create_role_warning_from_unassignable(unassignable_roles: Vec<u64>) -> (r: Option<Embed>)
    ensures
        shown_embed(r) == role_warning(unassignable_roles@),
{
    if unassignable_roles.len() == 0 {
        return None;
    }
    let mut sorted_roles = unassignable_roles;
    sort_ascending(&mut sorted_roles);
    Some(
        Embed::new(
            "Warning",
            "I don't currently have access to grant the following roles. Please check bot permissions.".to_owned().concat(
                list_roles(sorted_roles.as_slice()).as_str(),
            ),
            Some(Colour::Orange),
        ),
    )
}

/// Create a simple success reply
pub fn success_reply(title: &str, message: String) -> (r: Embed)
    ensures
        r@ == (EmbedView { title: title@, description: message@, colour: Some(Colour::DarkGreen) }),
{
    Embed::new(title, message, Some(Colour::DarkGreen))
}

/// Create a simple error reply
pub fn error_reply(title: &str, message: String) -> (r: Embed)
    ensures
        r@ == (EmbedView { title: title@, description: message@, colour: Some(Colour::Red) }),
{
    Embed::new(title, message, Some(Colour::Red))
}

/// What a guild tells of one of its roles
#[derive(Debug, Copy, Clone)]
pub struct GuildRole {
    pub role_id: u64,
    pub position: u16,
    pub mentionable: bool,
    /// Whether the role belongs to an integration
    pub managed: bool,
}

/// Whether a role is above another one: its position is bigger, or the same and its ID is smaller.
pub open spec fn is_above(a: GuildRole, b: GuildRole) -> bool {
    a.position > b.position || (a.position == b.position && a.role_id < b.role_id)
}

/// Whether some role can be mentioned.
pub open spec fn has_mentionable(roles: Seq<GuildRole>) -> bool {
    exists|i: int| 0 <= i < roles.len() && (#[trigger] roles[i]).mentionable
}

/// The highest role that can be mentioned
pub fn highest_mentionable_role(roles: &[GuildRole]) -> (r: Option<u64>)
    ensures
        r is None <==> forall|i: int| 0 <= i < roles@.len() ==> !(#[trigger] roles@[i]).mentionable,
        r is Some <==> has_mentionable(roles@),
        r matches Some(role_id) ==> exists|i: int|
            {
                &&& 0 <= i < roles@.len()
                &&& (#[trigger] roles@[i]).mentionable
                &&& roles@[i].role_id == role_id
                &&& forall|j: int|
                    0 <= j < roles@.len() && (#[trigger] roles@[j]).mentionable ==> !is_above(roles@[j], roles@[i])
            },
{
    let mut highest: Option<usize> = None;
    for i in 0..roles.len()
        invariant
            highest is None <==> forall|j: int| 0 <= j < i ==> !(#[trigger] roles@[j]).mentionable,
            highest matches Some(h) ==> {
                &&& h < i
                &&& roles@[h as int].mentionable
                &&& forall|j: int|
                    0 <= j < i && (#[trigger] roles@[j]).mentionable ==> !is_above(roles@[j], roles@[h as int])
            },
    {
        if roles[i].mentionable {
            match highest {
                None => {
                    highest = Some(i);
                }
                Some(h) => {
                    if roles[i].position > roles[h].position || (roles[i].position == roles[h].position
                        && roles[i].role_id < roles[h].role_id) {
                        highest = Some(i);
                    }
                }
            }
        }
    }
    match highest {
        Some(h) => {
            proof {
                assert(roles@[h as int].mentionable);
            }
            Some(roles[h].role_id)
        }
        None => None,
    }
}

/// Whether a channel is listed before another one: its position is smaller, or the same and its ID is bigger.
pub open spec fn is_listed_before(a: (u16, u64), b: (u16, u64)) -> bool {
    a.0 < b.0 || (a.0 == b.0 && a.1 >= b.1)
}

/// The order of channels, which are given by their positions and IDs.
pub open spec fn channel_order() -> spec_fn((u16, u64), (u16, u64)) -> bool {
    |a: (u16, u64), b: (u16, u64)| is_listed_before(a, b)
}

/// Channels, which are given by their positions and IDs, in the order in which they are listed
pub fn sorted_channels(channels: &[(u16, u64)]) -> (r: Vec<(u16, u64)>)
    ensures
        r@ == channels@.sort_by(channel_order()),
{
    let mut sorted: Vec<(u16, u64)> = Vec::new();
    let ghost all = channels@;
    proof {
        assert(all.take(0) =~= Seq::<(u16, u64)>::empty());
    }
    for i in 0..channels.len()
        invariant
            channels@ == all,
            forall|k: int, l: int|
                0 <= k < l < sorted@.len() ==> is_listed_before(#[trigger] sorted@[k], #[trigger] sorted@[l]),
            sorted@.len() == i,
            sorted@.to_multiset() == all.take(i as int).to_multiset(),
    {
        let channel: (u16, u64) = channels[i];
        let mut position: usize = 0;
        while position < sorted.len() && (sorted[position].0 < channel.0 || (sorted[position].0 == channel.0
            && sorted[position].1 >= channel.1))
            invariant
                position <= sorted@.len(),
                forall|k: int| 0 <= k < position ==> is_listed_before(#[trigger] sorted@[k], channel),
            decreases sorted@.len() - position,
        {
            position = position + 1;
        }
        let ghost before = sorted@;
        sorted.insert(position, channel);
        proof {
            vstd::seq_lib::to_multiset_insert(before, position as int, channel);
            all.take(i as int).to_multiset_ensures();
            assert(all.take(i + 1) =~= all.take(i as int).push(channel));
            assert forall|k: int, l: int| 0 <= k < l < sorted@.len() implies is_listed_before(
                #[trigger] sorted@[k],
                #[trigger] sorted@[l],
            ) by {
                if l < position {
                    assert(is_listed_before(before[k], before[l]));
                } else if k > position {
                    assert(is_listed_before(before[k - 1], before[l - 1]));
                } else if k < position && l > position {
                    assert(is_listed_before(before[k], before[l - 1]));
                } else if k == position {
                    assert(is_listed_before(channel, before[position as int]));
                    if l - 1 > position {
                        assert(is_listed_before(before[position as int], before[l - 1]));
                    }
                }
            }
        }
    }
    proof {
        assert(all.take(all.len() as int) =~= all);
        all.lemma_sort_by_ensures(channel_order());
        assert(vstd::relations::sorted_by(sorted@, channel_order()));
        vstd::seq_lib::lemma_sorted_unique(sorted@, all.sort_by(channel_order()), channel_order());
    }
    sorted
}

/// The roles that the bot can grant: it has to be allowed to manage roles, and to have a role itself, and then
/// it can grant what is below its own highest role, is not managed, and is not the role that everyone has.
pub open spec fn grantable(
    roles: Seq<GuildRole>,
    can_manage_roles: bool,
    highest_position: Option<u16>,
    everyone_id: Option<u64>,
) -> Seq<u64>
    decreases roles.len(),
{
    if roles.len() == 0 || !can_manage_roles || highest_position is None {
        Seq::empty()
    } else {
        let others = grantable(roles.drop_last(), can_manage_roles, highest_position, everyone_id);
        let role = roles.last();
        if everyone_id != Some(role.role_id) && role.position < highest_position->0 && !role.managed {
            others.push(role.role_id)
        } else {
            others
        }
    }
}

/// The roles that the bot can grant
pub fn assignable_roles(
    roles: &[GuildRole],
    can_manage_roles: bool,
    highest_position: Option<u16>,
    everyone_id: Option<u64>,
) -> (r: Vec<u64>)
    ensures
        r@ == grantable(roles@, can_manage_roles, highest_position, everyone_id),
{
    let mut assignable: Vec<u64> = Vec::new();
    let highest: u16 = match highest_position {
        Some(position) => position,
        // the bot has no roles (this should not be possible)
        None => return assignable,
    };
    if !can_manage_roles {
        return assignable;
    }
    for i in 0..roles.len()
        invariant
            can_manage_roles,
            highest_position == Some(highest),
            assignable@ == grantable(roles@.take(i as int), can_manage_roles, highest_position, everyone_id),
    {
        proof {
            assert(roles@.take(i + 1).drop_last() =~= roles@.take(i as int));
        }
        let role = roles[i];
        let is_everyone = match everyone_id {
            Some(everyone_id) => everyone_id == role.role_id,
            None => false,
        };
        if !is_everyone && role.position < highest && !role.managed {
            assignable.push(role.role_id);
        }
    }
    proof {
        assert(roles@.take(roles@.len() as int) =~= roles@);
    }
    assignable
}

/// The roles that a guild does not have any more
pub fn deleted_roles(known_roles: &[u64], guild_roles: &[u64]) -> (r: Vec<u64>)
    ensures
        r@ == known_roles@.filter(|role_id: u64| !guild_roles@.contains(role_id)),
{
    let mut deleted: Vec<u64> = Vec::new();
    let ghost is_deleted = |role_id: u64| !guild_roles@.contains(role_id);
    proof {
        assert(known_roles@.take(0) =~= Seq::<u64>::empty());
        reveal(Seq::filter);
    }
    for i in 0..known_roles.len()
        invariant
            is_deleted == (|role_id: u64| !guild_roles@.contains(role_id)),
            deleted@ == known_roles@.take(i as int).filter(is_deleted),
    {
        proof {
            reveal(Seq::filter);
            assert(known_roles@.take(i + 1).drop_last() =~= known_roles@.take(i as int));
        }
        let role_id: u64 = known_roles[i];
        if !contains_id(guild_roles, role_id) {
            deleted.push(role_id);
        }
    }
    proof {
        assert(known_roles@.take(known_roles@.len() as int) =~= known_roles@);
    }
    deleted
}

/// Generates a random number with `rand::random`. Nothing is promised of it.
#[verifier::external_body]
pub fn generate_nonce() -> u64 {
    rand::random::<u64>()
}

/// Result of a retry check
#[derive(Debug, Copy, Clone, PartialEq, Eq, Structural)]
pub enum RetryCheck {
    /// Do not retry, and immediately return the latest result
    DoNotRetry,
    /// Retry after the specified number of milliseconds
    RetryAfter(u64),
}

/// Some item that is known to be either deterministic or non-deterministic. This behavior is useful to know, as if
/// recreating this item will always yield the same result then there is no reason to recreate the item.
pub trait IsDeterministic {
    /// Check if this item is deterministic or non-deterministic.
    fn is_deterministic(&self) -> bool;
}

/// What follows a result that may change on another try, with the number of retries so far.
pub open spec fn next_retry(retry_count: u8) -> RetryCheck {
    if retry_count == 0 {
        RetryCheck::RetryAfter(300)
    } else if retry_count == 1 {
        RetryCheck::RetryAfter(3_000)
    } else if retry_count == 2 {
        RetryCheck::RetryAfter(10_000)
    } else {
        RetryCheck::DoNotRetry
    }
}

/// Keeps count of the attempts at something: up to four (three retry attempts maximum), with a gradually
/// increasing delay (0.3s, 3.0s, 10.0s).
#[derive(Debug)]
pub struct RetryThrice {
    pub retry_count: u8,
}

impl RetryThrice {
    pub fn new() -> (r: RetryThrice)
        ensures
            r.retry_count == 0,
    {
        RetryThrice { retry_count: 0 }
    }

    /// What follows an attempt: a success is final, and so is a failure that would only come again
    pub fn after_attempt(&mut self, succeeded: bool, deterministic: bool) -> (r: RetryCheck)
        ensures
            r == (if succeeded || deterministic {
                RetryCheck::DoNotRetry
            } else {
                next_retry(old(self).retry_count)
            }),
            final(self).retry_count == (if r is DoNotRetry {
                old(self).retry_count as int
            } else {
                old(self).retry_count + 1
            }),
    {
        if succeeded || deterministic {
            return RetryCheck::DoNotRetry;
        }
        let retry_check = match self.retry_count {
            0 => RetryCheck::RetryAfter(300),
            1 => RetryCheck::RetryAfter(3_000),
            2 => RetryCheck::RetryAfter(10_000),
            _ => RetryCheck::DoNotRetry,
        };
        if let RetryCheck::RetryAfter(_) = retry_check {
            // set up for the retry we are about to perform
            self.retry_count = self.retry_count + 1;
        }
        retry_check
    }

    /// What follows a result. Whether an error would only come again is up to its type, which is asked for it.
    pub fn check<T, E: IsDeterministic>(&mut self, result: &Result<T, E>) -> (r: RetryCheck)
        ensures
            result is Ok ==> r is DoNotRetry,
            result matches Err(e) ==> exists|deterministic: bool|
                #[trigger] call_ensures(E::is_deterministic, (&e,), deterministic) && r == (if deterministic {
                    RetryCheck::DoNotRetry
                } else {
                    next_retry(old(self).retry_count)
                }),
            final(self).retry_count == (if r is DoNotRetry {
                old(self).retry_count as int
            } else {
                old(self).retry_count + 1
            }),
    {
        match result {
            Ok(_) => self.after_attempt(true, false),
            Err(e) => {
                let deterministic = e.is_deterministic();
                self.after_attempt(false, deterministic)
            }
        }
    }
}

/// Something is attempted up to four times: whatever the results are, each attempt but the last one is followed by
/// a retry, and there are three of them at most, after 0.3s, 3.0s and 10.0s.
pub proof fn at_most_three_retries(checks: Seq<RetryCheck>)
    requires
        forall|i: int|
            0 <= i < checks.len() && i < 256 ==> (#[trigger] checks[i] is DoNotRetry || checks[i] == next_retry(i as u8)),
        forall|i: int| 0 <= i < checks.len() - 1 ==> !(#[trigger] checks[i] is DoNotRetry),
    ensures
        checks.len() <= 4,
        checks.len() == 4 ==> checks[3] is DoNotRetry,
        checks.len() > 1 ==> checks[0] == RetryCheck::RetryAfter(300),
        checks.len() > 2 ==> checks[1] == RetryCheck::RetryAfter(3_000),
        checks.len() > 3 ==> checks[2] == RetryCheck::RetryAfter(10_000),
{
    if checks.len() > 3 {
        assert(checks[3] is DoNotRetry || checks[3] == next_retry(3));
    }
    if checks.len() > 1 {
        assert(!(checks[0] is DoNotRetry));
    }
    if checks.len() > 2 {
        assert(!(checks[1] is DoNotRetry));
    }
    if checks.len() > 3 {
        assert(!(checks[2] is DoNotRetry));
    }
}

/// What kind a message is of
#[derive(Debug, Copy, Clone, PartialEq, Eq, Structural)]
pub enum MessageKind {
    Regular,
    InlineReply,
    Other,
}

/// What sets a message apart from an ordinary one
#[derive(Debug, Copy, Clone, PartialEq, Eq, Structural)]
pub struct MessageFlags {
    pub crosspost: bool,
    pub voice_message: bool,
    pub ephemeral: bool,
    pub loading: bool,
    pub urgent: bool,
}

/// Whether a message may be a private one: it is not in a guild, is of an ordinary kind, and nothing sets it apart.
/// Only its channel can tell then.
pub fn may_be_private(guild_id: Option<u64>, kind: Option<MessageKind>, flags: Option<MessageFlags>) -> (r: bool)
    ensures
        r <==> {
            &&& guild_id is None
            &&& kind matches Some(kind) && (kind is Regular || kind is InlineReply)
            &&& flags matches Some(f) ==> !(f.crosspost || f.voice_message || f.ephemeral || f.loading || f.urgent)
        },
{
    if guild_id.is_some() {
        return false;
    }
    let ordinary = match kind {
        Some(MessageKind::Regular) | Some(MessageKind::InlineReply) => true,
        _ => false,
    };
    let odd = match flags {
        Some(f) => f.crosspost || f.voice_message || f.ephemeral || f.loading || f.urgent,
        None => false,
    };
    ordinary && !odd
}

} // verus!
