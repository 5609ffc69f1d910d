//! The messages that the bot posts.

use crate::text::{decimal, u64_to_string};
use vstd::prelude::*;

verus! {

/// The colours that set messages apart.
#[derive(Debug, Copy, Clone, PartialEq, Eq, Structural)]
pub enum Colour {
    Red,
    Orange,
    Gold,
    DarkGreen,
}

/// A titled box of text in a Discord message
#[derive(Debug, Clone, PartialEq, Eq)]
pub struct Embed {
    pub title: String,
    pub description: String,
    pub colour: Option<Colour>,
}

/// What an [`Embed`] shows.
pub struct EmbedView {
    pub title: Seq<char>,
    pub description: Seq<char>,
    pub colour: Option<Colour>,
}

impl View for Embed {
    type V = EmbedView;

    open spec fn view(&self) -> EmbedView {
        EmbedView { title: self.title@, description: self.description@, colour: self.colour }
    }
}

impl Embed {
    /// An embed of a fixed title and a description that was put together.
    pub fn new(title: &str, description: String, colour: Option<Colour>) -> (r: Embed)
        ensures
            r@ == (EmbedView { title: title@, description: description@, colour }),
    {
        Embed { title: title.to_owned(), description, colour }
    }
}

/// The mention of a user.
pub open spec fn user_mention(user_id: u64) -> Seq<char> {
    "<@"@ + decimal(user_id as nat) + ">"@
}

/// The mention of a role.
pub open spec fn role_mention(role_id: u64) -> Seq<char> {
    "<@&"@ + decimal(role_id as nat) + ">"@
}

/// The mention of a channel.
pub open spec fn channel_mention(channel_id: u64) -> Seq<char> {
    "<#"@ + decimal(channel_id as nat) + ">"@
}

pub fn mention_user(user_id: u64) -> (r: String)
    ensures
        r@ == user_mention(user_id),
{
    "<@".to_owned().concat(u64_to_string(user_id).as_str()).concat(">")
}

pub fn mention_role(role_id: u64) -> (r: String)
    ensures
        r@ == role_mention(role_id),
{
    "<@&".to_owned().concat(u64_to_string(role_id).as_str()).concat(">")
}

pub fn mention_channel(channel_id: u64) -> (r: String)
    ensures
        r@ == channel_mention(channel_id),
{
    "<#".to_owned().concat(u64_to_string(channel_id).as_str()).concat(">")
}

/// A bulleted list of users, each on a line of its own.
pub open spec fn user_bullets(user_ids: Seq<u64>) -> Seq<char>
    decreases user_ids.len(),
{
    if user_ids.len() == 0 {
        Seq::empty()
    } else {
        user_bullets(user_ids.drop_last()) + "\n- "@ + user_mention(user_ids.last())
    }
}

/// A bulleted list of roles, each on a line of its own.
pub open spec fn role_bullets(role_ids: Seq<u64>) -> Seq<char>
    decreases role_ids.len(),
{
    if role_ids.len() == 0 {
        Seq::empty()
    } else {
        role_bullets(role_ids.drop_last()) + "\n- "@ + role_mention(role_ids.last())
    }
}

pub fn list_users(user_ids: &[u64]) -> (r: String)
    ensures
        r@ == user_bullets(user_ids@),
{
    let mut list = String::new();
    for i in 0..user_ids.len()
        invariant
            list@ == user_bullets(user_ids@.take(i as int)),
    {
        proof {
            assert(user_ids@.take(i + 1).drop_last() =~= user_ids@.take(i as int));
        }
        list = list.concat("\n- ").concat(mention_user(user_ids[i]).as_str());
    }
    proof {
        assert(user_ids@.take(user_ids@.len() as int) =~= user_ids@);
    }
    list
}

pub fn list_roles(role_ids: &[u64]) -> (r: String)
    ensures
        r@ == role_bullets(role_ids@),
{
    let mut list = String::new();
    for i in 0..role_ids.len()
        invariant
            list@ == role_bullets(role_ids@.take(i as int)),
    {
        proof {
            assert(role_ids@.take(i + 1).drop_last() =~= role_ids@.take(i as int));
        }
        list = list.concat("\n- ").concat(mention_role(role_ids[i]).as_str());
    }
    proof {
        assert(role_ids@.take(role_ids@.len() as int) =~= role_ids@);
    }
    list
}

} // verus!
