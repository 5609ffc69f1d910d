//! What texts say

use crate::bot::message::{
    channel_mention, list_roles, list_users, role_bullets, role_mention, user_bullets, user_mention,
};
use crate::text::{decimal, decimal_round_trip};
use vstd::prelude::*;

verus! {

/// Whether a text says something.
pub open spec fn says(text: Seq<char>, part: Seq<char>) -> bool {
    exists|i: int| 0 <= i && i + part.len() <= text.len() && #[trigger] text.subrange(i, i + part.len()) == part
}

/// Whether a text ends with something.
pub open spec fn ends_with(text: Seq<char>, end: Seq<char>) -> bool {
    end.len() <= text.len() && text.skip(text.len() - end.len()) == end
}

/// How a user is mentioned.
pub open spec fn mentions_user(text: Seq<char>, user_id: u64) -> bool {
    says(text, "<@"@ + decimal(user_id as nat) + ">"@)
}

/// How a role is mentioned.
pub open spec fn mentions_role(text: Seq<char>, role_id: u64) -> bool {
    says(text, "<@&"@ + decimal(role_id as nat) + ">"@)
}

/// A text says itself.
pub proof fn says_itself(text: Seq<char>)
    ensures
        says(text, text),
{
    assert(text.subrange(0, 0int + text.len()) =~= text);
}

/// What is said is still said when something follows, or comes before.
pub proof fn says_in_concatenation(a: Seq<char>, b: Seq<char>, part: Seq<char>)
    requires
        says(a, part) || says(b, part),
    ensures
        says(a + b, part),
{
    let all = a + b;
    if says(a, part) {
        let i = choose|i: int| 0 <= i && i + part.len() <= a.len() && #[trigger] a.subrange(i, i + part.len()) == part;
        assert(all.subrange(i, i + part.len()) =~= a.subrange(i, i + part.len()));
    } else {
        let i = choose|i: int| 0 <= i && i + part.len() <= b.len() && #[trigger] b.subrange(i, i + part.len()) == part;
        assert(all.subrange(a.len() + i, a.len() + i + part.len()) =~= b.subrange(i, i + part.len()));
    }
}

/// Whatever is put together says each of its parts.
pub proof fn says_its_parts(a: Seq<char>, b: Seq<char>)
    ensures
        says(a + b, a),
        says(a + b, b),
        ends_with(a + b, b),
{
    says_itself(a);
    says_itself(b);
    says_in_concatenation(a, b, a);
    says_in_concatenation(a, b, b);
    assert((a + b).skip(a.len() as int) =~= b);
}

/// A text that says something says whatever that says.
pub proof fn says_is_transitive(text: Seq<char>, part: Seq<char>, smaller: Seq<char>)
    requires
        says(text, part),
        says(part, smaller),
    ensures
        says(text, smaller),
{
    let i = choose|i: int|
        0 <= i && i + part.len() <= text.len() && #[trigger] text.subrange(i, i + part.len()) == part;
    let j = choose|j: int|
        0 <= j && j + smaller.len() <= part.len() && #[trigger] part.subrange(j, j + smaller.len()) == smaller;
    assert(text.subrange(i + j, i + j + smaller.len()) =~= part.subrange(j, j + smaller.len()));
}

/// Texts with different last characters do not end alike.
pub proof fn last_characters_tell_ends_apart(text: Seq<char>, end: Seq<char>)
    requires
        text.len() == 0 || end.len() > 0 && text.last() != end.last(),
        end.len() > 0,
    ensures
        !ends_with(text, end),
{
    if ends_with(text, end) {
        assert(text.skip(text.len() - end.len()).last() == end.last());
    }
}

/// Mentions are told apart by whom they mention.
pub proof fn mentions_are_distinct(a: u64, b: u64)
    requires
        a != b,
    ensures
        user_mention(a) != user_mention(b),
        role_mention(a) != role_mention(b),
        channel_mention(a) != channel_mention(b),
{
    decimal_round_trip(a as nat);
    decimal_round_trip(b as nat);
    let x = decimal(a as nat);
    let y = decimal(b as nat);
    middles_are_distinct("<@"@, x, y, ">"@);
    middles_are_distinct("<@&"@, x, y, ">"@);
    middles_are_distinct("<#"@, x, y, ">"@);
}

proof fn middles_are_distinct(start: Seq<char>, x: Seq<char>, y: Seq<char>, end: Seq<char>)
    requires
        x != y,
    ensures
        start + x + end != start + y + end,
{
    let a = start + x + end;
    let b = start + y + end;
    if a == b {
        assert(a.len() == start.len() + x.len() + end.len());
        assert(b.len() == start.len() + y.len() + end.len());
        assert(a.subrange(start.len() as int, start.len() as int + x.len()) =~= x);
        assert(b.subrange(start.len() as int, start.len() as int + x.len()) =~= y);
    }
}

/// A list of users mentions each of them.
pub proof fn users_of_bullets_are_mentioned(user_ids: Seq<u64>, i: int)
    requires
        0 <= i < user_ids.len(),
    ensures
        mentions_user(user_bullets(user_ids), user_ids[i]),
    decreases user_ids.len(),
{
    let before = user_bullets(user_ids.drop_last()) + "\n- "@;
    let mention = user_mention(user_ids.last());
    if i == user_ids.len() - 1 {
        says_its_parts(before, mention);
    } else {
        users_of_bullets_are_mentioned(user_ids.drop_last(), i);
        let part = "<@"@ + decimal(user_ids[i] as nat) + ">"@;
        says_in_concatenation(user_bullets(user_ids.drop_last()), "\n- "@, part);
        says_in_concatenation(before, mention, part);
    }
}

/// A list of roles mentions each of them.
pub proof fn role_bullets_mention_each(role_ids: Seq<u64>, i: int)
    requires
        0 <= i < role_ids.len(),
    ensures
        mentions_role(role_bullets(role_ids), role_ids[i]),
    decreases role_ids.len(),
{
    let before = role_bullets(role_ids.drop_last()) + "\n- "@;
    let mention = role_mention(role_ids.last());
    if i == role_ids.len() - 1 {
        says_its_parts(before, mention);
    } else {
        role_bullets_mention_each(role_ids.drop_last(), i);
        let part = "<@&"@ + decimal(role_ids[i] as nat) + ">"@;
        says_in_concatenation(role_bullets(role_ids.drop_last()), "\n- "@, part);
        says_in_concatenation(before, mention, part);
    }
}

/// A list of users mentions each of them, on a line of its own, and says nothing if there are none.
pub proof fn users_are_listed(user_ids: &[u64], list: String, i: int)
    requires
        call_ensures(list_users, (user_ids,), list),
    ensures
        user_ids@.len() == 0 ==> list@.len() == 0,
        user_ids@.len() == 1 ==> list@ == "\n- "@ + ("<@"@ + decimal(user_ids@[0] as nat) + ">"@),
        0 <= i < user_ids@.len() ==> mentions_user(list@, user_ids@[i]),
{
    reveal_with_fuel(user_bullets, 2);
    if user_ids@.len() == 1 {
        assert(list@ =~= "\n- "@ + user_mention(user_ids@[0]));
    }
    if 0 <= i < user_ids@.len() {
        users_of_bullets_are_mentioned(user_ids@, i);
    }
}

/// A list of roles mentions each of them, on a line of its own, and says nothing if there are none.
pub proof fn roles_are_listed(role_ids: &[u64], list: String, i: int)
    requires
        call_ensures(list_roles, (role_ids,), list),
    ensures
        role_ids@.len() == 0 ==> list@.len() == 0,
        role_ids@.len() == 1 ==> list@ == "\n- "@ + ("<@&"@ + decimal(role_ids@[0] as nat) + ">"@),
        0 <= i < role_ids@.len() ==> mentions_role(list@, role_ids@[i]),
{
    reveal_with_fuel(role_bullets, 2);
    if role_ids@.len() == 1 {
        assert(list@ =~= "\n- "@ + role_mention(role_ids@[0]));
    }
    if 0 <= i < role_ids@.len() {
        role_bullets_mention_each(role_ids@, i);
    }
}

/// Texts, one after the other.
pub open spec fn chained(parts: Seq<Seq<char>>) -> Seq<char>
    decreases parts.len(),
{
    if parts.len() == 0 {
        Seq::empty()
    } else {
        chained(parts.drop_last()) + parts.last()
    }
}

/// One more text comes behind the others.
pub broadcast proof fn chained_of_push(parts: Seq<Seq<char>>, part: Seq<char>)
    ensures
        #[trigger] chained(parts.push(part)) == chained(parts) + part,
{
    assert(parts.push(part).drop_last() =~= parts);
}

/// A single text stands for itself.
pub broadcast proof fn chained_of_one(part: Seq<char>)
    ensures
        #[trigger] chained(Seq::<Seq<char>>::empty().push(part)) == part,
{
    reveal_with_fuel(chained, 2);
    let parts = Seq::<Seq<char>>::empty().push(part);
    assert(parts.drop_last() =~= Seq::<Seq<char>>::empty());
    assert(chained(parts) =~= part);
}

/// Texts one after the other say each of them, and each two that follow each other.
pub proof fn chained_says(parts: Seq<Seq<char>>, i: int)
    requires
        0 <= i < parts.len(),
    ensures
        says(chained(parts), parts[i]),
        i + 1 < parts.len() ==> says(chained(parts), parts[i] + parts[i + 1]),
    decreases parts.len(),
{
    let init = parts.drop_last();
    let before = chained(init);
    let last = parts.last();
    says_its_parts(before, last);
    if i < init.len() {
        chained_says(init, i);
        says_in_concatenation(before, last, parts[i]);
        if i + 1 < init.len() {
            says_in_concatenation(before, last, parts[i] + parts[i + 1]);
        } else {
            let pair = parts[i] + parts[i + 1];
            assert(chained(parts) =~= chained(init.drop_last()) + pair);
            says_its_parts(chained(init.drop_last()), pair);
        }
    }
}

/// One more user or role is one more line at the end of a list, and nothing else.
pub proof fn lists_grow_by_a_line(
    ids: &[u64],
    more: &[u64],
    id: u64,
    users: String,
    more_users: String,
    roles: String,
    more_roles: String,
)
    requires
        more@ == ids@.push(id),
        call_ensures(list_users, (ids,), users),
        call_ensures(list_users, (more,), more_users),
        call_ensures(list_roles, (ids,), roles),
        call_ensures(list_roles, (more,), more_roles),
    ensures
        more_users@ == users@ + "\n- "@ + ("<@"@ + decimal(id as nat) + ">"@),
        more_roles@ == roles@ + "\n- "@ + ("<@&"@ + decimal(id as nat) + ">"@),
{
    assert(more@.drop_last() =~= ids@);
}

} // verus!
