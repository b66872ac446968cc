//! Chat export: the kind of a chat and the identifiers the export document carries for it,
//! where downloaded photos are referenced from, and which chat a query names.

use crate::pathstr::{join, join_spec, strip_prefix, strip_prefix_spec};
use crate::text::{
    chars_of, concat, contains_chars, contains_spec, debug_quoted, debug_text, i64_to_string,
    int_decimal, lowercase_text, nat_decimal, parse_i64, parse_i64_spec, to_lowercase,
    u64_to_string, chars_eq,
};
use chrono::DateTime;
use vstd::prelude::*;

verus! {

/// What a photo field holds when photos are not downloaded.
pub const PHOTO_PLACEHOLDER: &'static str = "(photo)";

/// Added to a channel's id (and negated) to form its Bot API id.
pub const BOT_API_CHANNEL_ID_OFFSET: i64 = 1000000000000;

/// The kinds of chat the export tells apart.
#[derive(Clone, Copy, Debug, PartialEq, Eq, Structural)]
pub enum ChatKind {
    Personal,
    Bot,
    Group,
    Supergroup,
    Channel,
}

/// The shape of a chat as Telegram reports it: a user (a bot or not), a group (whose raw
/// form is a channel for megagroups), or a broadcast channel.
#[derive(Clone, Copy, Debug, PartialEq, Eq, Structural)]
pub enum ChatShape {
    User { is_bot: bool },
    Group { raw_is_channel: bool },
    Channel,
}

impl ChatKind {
    pub open spec fn of_spec(shape: ChatShape) -> ChatKind {
        match shape {
            ChatShape::User { is_bot } => if is_bot {
                ChatKind::Bot
            } else {
                ChatKind::Personal
            },
            ChatShape::Group { raw_is_channel } => if raw_is_channel {
                ChatKind::Supergroup
            } else {
                ChatKind::Group
            },
            ChatShape::Channel => ChatKind::Channel,
        }
    }

    /// The kind of a chat; megagroups, which Telegram wraps as groups over a raw channel,
    /// are supergroups.
    pub fn of(chat: &ChatShape) -> (k: ChatKind)
        ensures
            k == Self::of_spec(*chat),
    {
        match chat {
            ChatShape::User { is_bot } => if *is_bot {
                ChatKind::Bot
            } else {
                ChatKind::Personal
            },
            ChatShape::Group { raw_is_channel } => if *raw_is_channel {
                ChatKind::Supergroup
            } else {
                ChatKind::Group
            },
            ChatShape::Channel => ChatKind::Channel,
        }
    }

    pub open spec fn export_type_spec(self) -> Seq<char> {
        match self {
            ChatKind::Personal => "personal_chat"@,
            ChatKind::Bot => "bot_chat"@,
            ChatKind::Group => "private_group"@,
            ChatKind::Supergroup => "private_supergroup"@,
            ChatKind::Channel => "private_channel"@,
        }
    }

    /// The document's `type` for this kind.
    pub fn export_type(self) -> (r: &'static str)
        ensures
            r@ == self.export_type_spec(),
    {
        match self {
            ChatKind::Personal => "personal_chat",
            ChatKind::Bot => "bot_chat",
            ChatKind::Group => "private_group",
            ChatKind::Supergroup => "private_supergroup",
            ChatKind::Channel => "private_channel",
        }
    }

    pub open spec fn peer_prefix(self) -> Seq<char> {
        match self {
            ChatKind::Personal | ChatKind::Bot => "user"@,
            ChatKind::Group => "chat"@,
            ChatKind::Supergroup | ChatKind::Channel => "channel"@,
        }
    }

    /// The peer id prefixes: `user` for people and bots, `chat` for basic groups only, and
    /// `channel` for supergroups and broadcast channels alike.
    pub proof fn lemma_peer_prefixes()
        ensures
            ChatKind::Personal.peer_prefix() == seq!['u', 's', 'e', 'r'],
            ChatKind::Bot.peer_prefix() == seq!['u', 's', 'e', 'r'],
            ChatKind::Group.peer_prefix() == seq!['c', 'h', 'a', 't'],
            ChatKind::Supergroup.peer_prefix() == seq!['c', 'h', 'a', 'n', 'n', 'e', 'l'],
            ChatKind::Channel.peer_prefix() == seq!['c', 'h', 'a', 'n', 'n', 'e', 'l'],
    {
        reveal_strlit("user");
        reveal_strlit("chat");
        reveal_strlit("channel");
    }

    /// The sender peer id of each chat shape: a user or bot is `user<id>`, a basic group
    /// `chat<id>`, and a megagroup or a broadcast channel `channel<id>`.
    pub proof fn lemma_sender_peer_id_by_shape(shape: ChatShape, id: int)
        ensures
            shape is User ==> Self::of_spec(shape).peer_prefix() + int_decimal(id) == seq!['u', 's', 'e', 'r'] + int_decimal(id),
            shape == (ChatShape::Group { raw_is_channel: false }) ==> Self::of_spec(shape).peer_prefix() + int_decimal(id)
                == seq!['c', 'h', 'a', 't'] + int_decimal(id),
            (shape == (ChatShape::Group { raw_is_channel: true }) || shape == ChatShape::Channel) ==> Self::of_spec(
                shape,
            ).peer_prefix() + int_decimal(id) == seq!['c', 'h', 'a', 'n', 'n', 'e', 'l'] + int_decimal(id),
    {
        Self::lemma_peer_prefixes();
    }

    /// The peer id written for a sender: `user<id>`, `chat<id>` or `channel<id>`.
    pub fn peer_id(self, id: i64) -> (r: String)
        ensures
            r@ == self.peer_prefix() + int_decimal(id as int),
            (self == ChatKind::Personal || self == ChatKind::Bot) ==> r@ == seq!['u', 's', 'e', 'r'] + int_decimal(id as int),
            self == ChatKind::Group ==> r@ == seq!['c', 'h', 'a', 't'] + int_decimal(id as int),
            (self == ChatKind::Supergroup || self == ChatKind::Channel) ==> r@ == seq!['c', 'h', 'a', 'n', 'n', 'e', 'l']
                + int_decimal(id as int),
    {
        proof {
            Self::lemma_peer_prefixes();
        }
        let prefix = match self {
            ChatKind::Personal | ChatKind::Bot => "user",
            ChatKind::Group => "chat",
            ChatKind::Supergroup | ChatKind::Channel => "channel",
        };
        let digits = i64_to_string(id);
        concat(prefix, digits.as_str())
    }

    /// Whether the Bot API id of a chat with this id fits in an `i64`.
    pub open spec fn bot_api_id_fits(self, chat_id: int) -> bool {
        match self {
            ChatKind::Personal | ChatKind::Bot => true,
            ChatKind::Group => chat_id > i64::MIN,
            ChatKind::Supergroup | ChatKind::Channel => chat_id <= i64::MAX
                - BOT_API_CHANNEL_ID_OFFSET,
        }
    }

    pub open spec fn bot_api_chat_id_spec(self, chat_id: int, own_user_id: int) -> int {
        match self {
            ChatKind::Personal | ChatKind::Bot => own_user_id,
            ChatKind::Group => -chat_id,
            ChatKind::Supergroup | ChatKind::Channel => -(BOT_API_CHANNEL_ID_OFFSET + chat_id),
        }
    }

    /// The Bot API id of the chat: private chats share the account's own id, groups are
    /// negated and channels negated after adding the channel offset.
    pub fn bot_api_chat_id(self, chat_id: i64, own_user_id: i64) -> (r: i64)
        requires
            self.bot_api_id_fits(chat_id as int),
        ensures
            r == self.bot_api_chat_id_spec(chat_id as int, own_user_id as int),
    {
        match self {
            ChatKind::Personal | ChatKind::Bot => own_user_id,
            ChatKind::Group => -chat_id,
            ChatKind::Supergroup | ChatKind::Channel => -(BOT_API_CHANNEL_ID_OFFSET + chat_id),
        }
    }

    /// The id a query finds the chat by: the user id for private chats (they all share
    /// the account's Bot API id), the Bot API id otherwise.
    pub fn lookup_id(self, chat_id: i64) -> (r: i64)
        requires
            self.bot_api_id_fits(chat_id as int),
        ensures
            r == self.bot_api_chat_id_spec(chat_id as int, chat_id as int),
    {
        self.bot_api_chat_id(chat_id, chat_id)
    }
}

/// A chat as the export sees it.
#[derive(Debug)]
pub struct ExportChat {
    pub id: i64,
    /// The display name: a user's full name, otherwise the chat's title.
    pub name: String,
    pub shape: ChatShape,
}

/// The `from` and `from_id` written for messages sent by `chat`.
pub fn sender_fields(chat: &ExportChat) -> (r: (String, String))
    ensures
        r.0@ == chat.name@,
        r.1@ == ChatKind::of_spec(chat.shape).peer_prefix() + int_decimal(chat.id as int),
        chat.shape == ChatShape::Channel ==> r.1@ == seq!['c', 'h', 'a', 'n', 'n', 'e', 'l'] + int_decimal(chat.id as int),
        chat.shape == (ChatShape::Group { raw_is_channel: false }) ==> r.1@ == seq!['c', 'h', 'a', 't'] + int_decimal(
            chat.id as int,
        ),
{
    let kind = ChatKind::of(&chat.shape);
    (chat.name.clone(), kind.peer_id(chat.id))
}

/// Where downloaded photos go, and the directory of the JSON document that refers to them.
#[derive(Debug)]
pub struct MediaDir {
    pub dir: String,
    pub json_dir: String,
}

pub open spec fn photo_file_name(message_id: i32) -> Seq<char> {
    "photo_"@ + int_decimal(message_id as int) + ".jpg"@
}

impl MediaDir {
    pub open spec fn photo_path_spec(&self, message_id: i32) -> Seq<char> {
        join_spec(self.dir@, photo_file_name(message_id))
    }

    /// `<dir>/photo_<id>.jpg`.
    pub fn photo_path(&self, message_id: i32) -> (r: String)
        ensures
            r@ == self.photo_path_spec(message_id),
    {
        let digits = i64_to_string(message_id as i64);
        let name = concat("photo_", digits.as_str());
        let name = concat(name.as_str(), ".jpg");
        join(self.dir.as_str(), name.as_str())
    }
}

pub open spec fn photo_field_spec(message_id: i32, media_dir: Option<&MediaDir>) -> Seq<char> {
    match media_dir {
        None => PHOTO_PLACEHOLDER@,
        Some(m) => {
            let path = m.photo_path_spec(message_id);
            match strip_prefix_spec(path, m.json_dir@) {
                Some(relative) => relative,
                None => path,
            }
        },
    }
}

/// The `photo` field of a message: the placeholder without a media directory, else the
/// photo's path, relative to the document's directory when inside it.
pub fn photo_field(message_id: i32, media_dir: Option<&MediaDir>) -> (r: String)
    ensures
        r@ == photo_field_spec(message_id, media_dir),
{
    match media_dir {
        None => String::from_str(PHOTO_PLACEHOLDER),
        Some(m) => {
            let path = m.photo_path(message_id);
            match strip_prefix(path.as_str(), m.json_dir.as_str()) {
                Some(relative) => relative,
                None => path,
            }
        },
    }
}

/// What an export wrote.
#[derive(Debug)]
pub struct ExportSummary {
    pub message_count: usize,
    pub chat_id: i64,
    pub bot_api_chat_id: i64,
}

/// A chat a query can name.
#[derive(Debug)]
pub struct ChatCandidate {
    pub id: i64,
    pub lookup_id: i64,
    pub name: String,
}

/// The candidate for `chat`: its id, lookup id and display name.
pub fn chat_candidate(chat: &ExportChat) -> (c: ChatCandidate)
    requires
        ChatKind::of_spec(chat.shape).bot_api_id_fits(chat.id as int),
    ensures
        c.id == chat.id,
        c.lookup_id == ChatKind::of_spec(chat.shape).bot_api_chat_id_spec(chat.id as int, chat.id as int),
        c.name@ == chat.name@,
{
    let kind = ChatKind::of(&chat.shape);
    ChatCandidate { id: chat.id, lookup_id: kind.lookup_id(chat.id), name: chat.name.clone() }
}

/// The positions in `chats[..n]` of the chats that pass `test`, in order.
pub open spec fn indices_where(chats: Seq<ChatCandidate>, test: spec_fn(ChatCandidate) -> bool, n: int) -> Seq<int>
    decreases n,
{
    if n <= 0 {
        Seq::empty()
    } else {
        let rest = indices_where(chats, test, n - 1);
        if test(chats[n - 1]) {
            rest.push(n - 1)
        } else {
            rest
        }
    }
}

/// Chats whose lookup id (or, with `by_lookup` false, whose id) is `id`.
pub open spec fn id_test(id: i64, by_lookup: bool) -> spec_fn(ChatCandidate) -> bool {
    |c: ChatCandidate| if by_lookup { c.lookup_id == id } else { c.id == id }
}

/// Chats whose lowercased name is `needle` (or, with `exact` false, contains it).
pub open spec fn name_test(needle: Seq<char>, exact: bool) -> spec_fn(ChatCandidate) -> bool {
    |c: ChatCandidate|
        if exact {
            lowercase_text(c.name@) == needle
        } else {
            contains_spec(lowercase_text(c.name@), needle)
        }
}

/// The chats a query names: a number names the chats with that lookup id, else those
/// with that id; other text names the chats whose name equals it ignoring case, else
/// those whose name contains it ignoring case.
pub open spec fn query_matches(query: Seq<char>, chats: Seq<ChatCandidate>) -> Seq<int> {
    let n = chats.len() as int;
    match parse_i64_spec(query) {
        Some(id) => {
            let by_lookup = indices_where(chats, id_test(id, true), n);
            if by_lookup.len() == 0 {
                indices_where(chats, id_test(id, false), n)
            } else {
                by_lookup
            }
        },
        None => {
            let needle = lowercase_text(query);
            let exact = indices_where(chats, name_test(needle, true), n);
            if exact.len() == 0 {
                indices_where(chats, name_test(needle, false), n)
            } else {
                exact
            }
        },
    }
}

pub open spec fn as_ints(v: Seq<usize>) -> Seq<int> {
    v.map_values(|i: usize| i as int)
}

fn find_by_id(chats: &Vec<ChatCandidate>, id: i64, by_lookup: bool) -> (r: Vec<usize>)
    ensures
        as_ints(r@) == indices_where(chats@, id_test(id, by_lookup), chats@.len() as int),
        forall|k: int| 0 <= k < r@.len() ==> r@[k] < chats@.len(),
{
    let mut r: Vec<usize> = Vec::new();
    let mut i: usize = 0;
    while i < chats.len()
        invariant
            i <= chats@.len(),
            as_ints(r@) == indices_where(chats@, id_test(id, by_lookup), i as int),
            forall|k: int| 0 <= k < r@.len() ==> r@[k] < i,
        decreases chats.len() - i,
    {
        let c = &chats[i];
        let hit = if by_lookup {
            c.lookup_id == id
        } else {
            c.id == id
        };
        assert(hit == id_test(id, by_lookup)(chats@[i as int]));
        if hit {
            r.push(i);
        }
        i += 1;
        assert(as_ints(r@) =~= indices_where(chats@, id_test(id, by_lookup), i as int));
    }
    r
}

fn find_by_name(chats: &Vec<ChatCandidate>, needle: &Vec<char>, exact: bool) -> (r: Vec<usize>)
    ensures
        as_ints(r@) == indices_where(chats@, name_test(needle@, exact), chats@.len() as int),
        forall|k: int| 0 <= k < r@.len() ==> r@[k] < chats@.len(),
{
    let mut r: Vec<usize> = Vec::new();
    let mut i: usize = 0;
    while i < chats.len()
        invariant
            i <= chats@.len(),
            as_ints(r@) == indices_where(chats@, name_test(needle@, exact), i as int),
            forall|k: int| 0 <= k < r@.len() ==> r@[k] < i,
        decreases chats.len() - i,
    {
        let name = to_lowercase(chats[i].name.as_str());
        let name = chars_of(name.as_str());
        let hit = if exact {
            chars_eq(&name, needle)
        } else {
            contains_chars(&name, needle)
        };
        assert(hit == name_test(needle@, exact)(chats@[i as int]));
        if hit {
            r.push(i);
        }
        i += 1;
        assert(as_ints(r@) =~= indices_where(chats@, name_test(needle@, exact), i as int));
    }
    r
}

/// `positions` are exactly the positions of the chats that pass `test`, in increasing
/// order.
pub open spec fn exactly_the_chats(chats: Seq<ChatCandidate>, test: spec_fn(ChatCandidate) -> bool, positions: Seq<int>) -> bool {
    &&& forall|i: int| #![trigger positions.contains(i)] positions.contains(i) <==> (0 <= i < chats.len() && test(chats[i]))
    &&& forall|j: int, k: int| #![trigger positions[j], positions[k]] 0 <= j < k < positions.len() ==> positions[j] < positions[k]
}

/// Some chat passes `test`.
pub open spec fn some_chat(chats: Seq<ChatCandidate>, test: spec_fn(ChatCandidate) -> bool) -> bool {
    exists|i: int| #![trigger chats[i]] 0 <= i < chats.len() && test(chats[i])
}

proof fn lemma_indices_where(chats: Seq<ChatCandidate>, test: spec_fn(ChatCandidate) -> bool, n: int)
    requires
        0 <= n <= chats.len(),
    ensures
        forall|i: int| #![trigger indices_where(chats, test, n).contains(i)] indices_where(chats, test, n).contains(i)
            <==> (0 <= i < n && test(chats[i])),
        forall|j: int, k: int| #![trigger indices_where(chats, test, n)[j], indices_where(chats, test, n)[k]] 0 <= j < k
            < indices_where(chats, test, n).len() ==> indices_where(chats, test, n)[j] < indices_where(chats, test, n)[k],
        forall|j: int| #![trigger indices_where(chats, test, n)[j]] 0 <= j < indices_where(chats, test, n).len() ==> 0
            <= indices_where(chats, test, n)[j] < n,
    decreases n,
{
    if n > 0 {
        lemma_indices_where(chats, test, n - 1);
        let rest = indices_where(chats, test, n - 1);
        let all = indices_where(chats, test, n);
        if test(chats[n - 1]) {
            assert(all == rest.push(n - 1));
            assert forall|i: int| #![trigger all.contains(i)] all.contains(i) <==> (0 <= i < n && test(chats[i])) by {
                if all.contains(i) && i != n - 1 {
                    let j = choose|j: int| 0 <= j < all.len() && all[j] == i;
                    assert(j < rest.len());
                    assert(rest[j] == i);
                    assert(rest.contains(i));
                }
                if 0 <= i < n - 1 && test(chats[i]) {
                    assert(rest.contains(i));
                    let j = choose|j: int| 0 <= j < rest.len() && rest[j] == i;
                    assert(all[j] == i);
                }
                if i == n - 1 && test(chats[i]) {
                    assert(all[all.len() - 1] == i);
                }
            }
            assert forall|j: int, k: int| #![trigger all[j], all[k]] 0 <= j < k < all.len() implies all[j] < all[k] by {
                assert(all[j] == rest[j]);
                if k < rest.len() {
                    assert(all[k] == rest[k]);
                }
            }
            assert forall|j: int| #![trigger all[j]] 0 <= j < all.len() implies 0 <= all[j] < n by {
                if j < rest.len() {
                    assert(all[j] == rest[j]);
                }
            }
        } else {
            assert(all == rest);
        }
    }
}

proof fn lemma_tier(chats: Seq<ChatCandidate>, test: spec_fn(ChatCandidate) -> bool)
    ensures
        exactly_the_chats(chats, test, indices_where(chats, test, chats.len() as int)),
        (indices_where(chats, test, chats.len() as int).len() == 0) == !some_chat(chats, test),
{
    let n = chats.len() as int;
    let r = indices_where(chats, test, n);
    lemma_indices_where(chats, test, n);
    if some_chat(chats, test) {
        let i = choose|i: int| #![trigger chats[i]] 0 <= i < chats.len() && test(chats[i]);
        assert(r.contains(i));
    }
    if r.len() > 0 {
        assert(r.contains(r[0]));
        assert(chats[r[0]] == chats[r[0]]);
    }
}

/// The tiers of a chat query: a number names exactly the chats whose lookup id it is,
/// in list order, or, when there are none, exactly those whose id it is; other text names
/// exactly the chats whose lowercased name is the lowercased query, or, when there are
/// none, exactly those whose lowercased name contains it.
pub proof fn lemma_chat_query_tiers(query: Seq<char>, chats: Seq<ChatCandidate>)
    ensures
        parse_i64_spec(query) matches Some(id) ==> if some_chat(chats, id_test(id, true)) {
            exactly_the_chats(chats, id_test(id, true), query_matches(query, chats))
        } else {
            exactly_the_chats(chats, id_test(id, false), query_matches(query, chats))
        },
        parse_i64_spec(query) is None ==> if some_chat(chats, name_test(lowercase_text(query), true)) {
            exactly_the_chats(chats, name_test(lowercase_text(query), true), query_matches(query, chats))
        } else {
            exactly_the_chats(chats, name_test(lowercase_text(query), false), query_matches(query, chats))
        },
{
    match parse_i64_spec(query) {
        Some(id) => {
            lemma_tier(chats, id_test(id, true));
            lemma_tier(chats, id_test(id, false));
        },
        None => {
            lemma_tier(chats, name_test(lowercase_text(query), true));
            lemma_tier(chats, name_test(lowercase_text(query), false));
        },
    }
}

/// `<lookup id>\t<name>` for one candidate.
pub open spec fn candidate_line(c: ChatCandidate) -> Seq<char> {
    int_decimal(c.lookup_id as int) + "\t"@ + c.name@
}

/// The lines of the candidates at `idx[..k]`, joined by newlines.
pub open spec fn candidate_lines(chats: Seq<ChatCandidate>, idx: Seq<int>, k: int) -> Seq<char>
    decreases k,
{
    if k <= 0 {
        Seq::empty()
    } else if k == 1 {
        candidate_line(chats[idx[0]])
    } else {
        candidate_lines(chats, idx, k - 1) + "\n"@ + candidate_line(chats[idx[k - 1]])
    }
}

/// The error for a query that names no chat.
pub open spec fn no_match_error(query: Seq<char>) -> Seq<char> {
    "no chat matches "@ + debug_text(query)
}

/// The error for a query that names several chats, listing them.
pub open spec fn ambiguous_error(query: Seq<char>, chats: Seq<ChatCandidate>, idx: Seq<int>) -> Seq<char> {
    debug_text(query) + " matches "@ + nat_decimal(idx.len()) + " chats; re-run with a chat id:\n"@
        + candidate_lines(chats, idx, idx.len() as int)
}

fn candidate_line_text(c: &ChatCandidate) -> (r: String)
    ensures
        r@ == candidate_line(*c),
{
    let id = i64_to_string(c.lookup_id);
    let r = concat(id.as_str(), "\t");
    concat(r.as_str(), c.name.as_str())
}

/// The position of the one chat `query` names; an error when it names none or several.
pub fn resolve_chat_query(query: &str, chats: &Vec<ChatCandidate>) -> (r: Result<usize, String>)
    ensures
        ({
            let m = query_matches(query@, chats@);
            match r {
                Ok(i) => m.len() == 1 && i == m[0],
                Err(e) => (m.len() == 0 && e@ == no_match_error(query@)) || (m.len() > 1 && e@
                    == ambiguous_error(query@, chats@, m)),
            }
        }),
{
    let query_chars = chars_of(query);
    let matches = match parse_i64(&query_chars) {
        Some(id) => {
            let by_lookup = find_by_id(chats, id, true);
            if by_lookup.len() == 0 {
                find_by_id(chats, id, false)
            } else {
                by_lookup
            }
        },
        None => {
            let needle = to_lowercase(query);
            let needle = chars_of(needle.as_str());
            let exact = find_by_name(chats, &needle, true);
            if exact.len() == 0 {
                find_by_name(chats, &needle, false)
            } else {
                exact
            }
        },
    };
    let ghost m = query_matches(query@, chats@);
    assert(as_ints(matches@) == m);
    if matches.len() == 1 {
        return Ok(matches[0]);
    }
    let quoted = debug_quoted(query);
    if matches.len() == 0 {
        return Err(concat("no chat matches ", quoted.as_str()));
    }
    let mut lines = candidate_line_text(&chats[matches[0]]);
    let mut k: usize = 1;
    while k < matches.len()
        invariant
            1 <= k <= matches@.len(),
            as_ints(matches@) == m,
            forall|j: int| 0 <= j < matches@.len() ==> matches@[j] < chats@.len(),
            lines@ == candidate_lines(chats@, m, k as int),
        decreases matches.len() - k,
    {
        let line = candidate_line_text(&chats[matches[k]]);
        let joined = concat(lines.as_str(), "\n");
        lines = concat(joined.as_str(), line.as_str());
        k += 1;
    }
    let count = u64_to_string(matches.len() as u64);
    let e = concat(quoted.as_str(), " matches ");
    let e = concat(e.as_str(), count.as_str());
    let e = concat(e.as_str(), " chats; re-run with a chat id:\n");
    Err(concat(e.as_str(), lines.as_str()))
}


// ----- the message document -----

/// Earliest second `chrono` can represent as a `DateTime<Utc>` (the first second of year
/// -262143).
pub const EARLIEST_EXPORT_TIMESTAMP: i64 = -8334601228800;

/// Last second `chrono` can represent as a `DateTime<Utc>` (the last second of year
/// 262142).
pub const LATEST_EXPORT_TIMESTAMP: i64 = 8210266876799;

pub open spec fn timestamp_in_range(unix: i64) -> bool {
    EARLIEST_EXPORT_TIMESTAMP <= unix <= LATEST_EXPORT_TIMESTAMP
}

/// The text `chrono` formats a UTC second as with `%Y-%m-%dT%H:%M:%S`.
pub uninterp spec fn chrono_export_date(unix: i64) -> Seq<char>;

/// Calls `DateTime::<Utc>::from_timestamp(unix, 0)` and formats the date with
/// `%Y-%m-%dT%H:%M:%S`. `from_timestamp` returns a date for every second in
/// `timestamp_in_range` (it checks the day count against `i32` and the year against
/// chrono's year limits); the formatted text depends on `unix` alone and is named by
/// `chrono_export_date`.
#[verifier::external_body]
fn export_date(unix: i64) -> (r: String)
    requires
        timestamp_in_range(unix),
    ensures
        r@ == chrono_export_date(unix),
{
    match DateTime::from_timestamp(unix, 0) {
        Some(date) => date.format("%Y-%m-%dT%H:%M:%S").to_string(),
        None => String::new(),
    }
}

/// Media of an exported message: a photo field (see `photo_field`) or a document with its
/// MIME type when known.
#[derive(Debug)]
pub enum ExportMedia {
    Photo(String),
    Document { mime_type: Option<String> },
}

/// What an inline keyboard button does.
#[derive(Debug, Clone, Copy, PartialEq, Eq, Structural)]
pub enum InlineButtonKind {
    Callback,
    Url,
    Other,
}

pub open spec fn button_kind_text(kind: InlineButtonKind) -> Seq<char> {
    match kind {
        InlineButtonKind::Callback => "callback"@,
        InlineButtonKind::Url => "url"@,
        InlineButtonKind::Other => "other"@,
    }
}

fn button_kind_str(kind: InlineButtonKind) -> (r: &'static str)
    ensures
        r@ == button_kind_text(kind),
{
    match kind {
        InlineButtonKind::Callback => "callback",
        InlineButtonKind::Url => "url",
        InlineButtonKind::Other => "other",
    }
}

#[derive(Debug)]
pub struct InlineButton {
    pub kind: InlineButtonKind,
    pub text: String,
}

/// A message as the export writes it; dates are seconds since the Unix epoch (UTC).
#[derive(Debug)]
pub struct ExportMessage {
    pub id: i32,
    pub service: bool,
    pub date: i64,
    pub edited: Option<i64>,
    /// The sender's name and peer id.
    pub from: Option<(String, String)>,
    pub reply_to_message_id: Option<i32>,
    pub media: Option<ExportMedia>,
    pub text: String,
    pub inline_buttons: Vec<Vec<InlineButton>>,
}

/// One `{"type": …, "text": …}` object of the document.
#[derive(Debug)]
pub struct TypedText {
    pub kind: String,
    pub text: String,
}

/// A field value of an exported message.
#[derive(Debug)]
pub enum ExportField {
    Int(i64),
    Text(String),
    /// `text_entities`: a list of typed texts.
    Entities(Vec<TypedText>),
    /// `inline_bot_buttons`: rows of typed texts.
    Buttons(Vec<Vec<TypedText>>),
}

/// A field value as plain values.
pub enum FieldModel {
    Int(int),
    Text(Seq<char>),
    Entities(Seq<(Seq<char>, Seq<char>)>),
    Buttons(Seq<Seq<(Seq<char>, Seq<char>)>>),
}

pub open spec fn typed_texts(v: Seq<TypedText>) -> Seq<(Seq<char>, Seq<char>)> {
    v.map_values(|t: TypedText| (t.kind@, t.text@))
}

impl ExportField {
    pub open spec fn model(&self) -> FieldModel {
        match self {
            ExportField::Int(i) => FieldModel::Int(*i as int),
            ExportField::Text(s) => FieldModel::Text(s@),
            ExportField::Entities(v) => FieldModel::Entities(typed_texts(v@)),
            ExportField::Buttons(rows) => FieldModel::Buttons(rows@.map_values(|row: Vec<TypedText>| typed_texts(row@))),
        }
    }
}

pub open spec fn field_models(fields: Seq<(String, ExportField)>) -> Seq<(Seq<char>, FieldModel)> {
    fields.map_values(|f: (String, ExportField)| (f.0@, f.1.model()))
}

pub open spec fn button_rows_model(rows: Seq<Vec<InlineButton>>) -> Seq<Seq<(Seq<char>, Seq<char>)>> {
    rows.map_values(|row: Vec<InlineButton>| row@.map_values(|b: InlineButton| (button_kind_text(b.kind), b.text@)))
}

impl ExportMessage {
    /// Its dates are ones `chrono` can represent.
    pub open spec fn dates_in_range(&self) -> bool {
        &&& timestamp_in_range(self.date)
        &&& (self.edited matches Some(e) ==> timestamp_in_range(e))
    }

    pub open spec fn edited_fields(&self) -> Seq<(Seq<char>, FieldModel)> {
        match self.edited {
            Some(e) => seq![
                ("edited"@, FieldModel::Text(chrono_export_date(e))),
                ("edited_unixtime"@, FieldModel::Text(int_decimal(e as int))),
            ],
            None => Seq::empty(),
        }
    }

    pub open spec fn from_fields(&self) -> Seq<(Seq<char>, FieldModel)> {
        match self.from {
            Some(f) => seq![("from"@, FieldModel::Text(f.0@)), ("from_id"@, FieldModel::Text(f.1@))],
            None => Seq::empty(),
        }
    }

    pub open spec fn reply_fields(&self) -> Seq<(Seq<char>, FieldModel)> {
        match self.reply_to_message_id {
            Some(r) => seq![("reply_to_message_id"@, FieldModel::Int(r as int))],
            None => Seq::empty(),
        }
    }

    pub open spec fn media_fields(&self) -> Seq<(Seq<char>, FieldModel)> {
        match self.media {
            Some(ExportMedia::Photo(p)) => seq![("photo"@, FieldModel::Text(p@))],
            Some(ExportMedia::Document { mime_type }) => match mime_type {
                Some(t) => seq![("file"@, FieldModel::Text("(file)"@)), ("mime_type"@, FieldModel::Text(t@))],
                None => seq![("file"@, FieldModel::Text("(file)"@))],
            },
            None => Seq::empty(),
        }
    }

    pub open spec fn text_fields(&self) -> Seq<(Seq<char>, FieldModel)> {
        let entities = if self.text@.len() == 0 {
            Seq::empty()
        } else {
            seq![("plain"@, self.text@)]
        };
        seq![("text"@, FieldModel::Text(self.text@)), ("text_entities"@, FieldModel::Entities(entities))]
    }

    pub open spec fn button_fields(&self) -> Seq<(Seq<char>, FieldModel)> {
        if self.inline_buttons@.len() == 0 {
            Seq::empty()
        } else {
            seq![("inline_bot_buttons"@, FieldModel::Buttons(button_rows_model(self.inline_buttons@)))]
        }
    }

    /// The fields after `date_unixtime` of a message that is not a service message.
    pub open spec fn content_fields(&self) -> Seq<(Seq<char>, FieldModel)> {
        self.edited_fields() + self.from_fields() + self.reply_fields() + self.media_fields()
            + self.text_fields() + self.button_fields()
    }

    /// The message's fields in the export document: `id`, `type`, `date` and
    /// `date_unixtime` always; a service message has nothing else, other messages add the
    /// edit dates, sender, reply id, media and buttons when present, and always the text
    /// with its entities (one plain entity for non-empty text).
    pub open spec fn json_spec(&self) -> Seq<(Seq<char>, FieldModel)> {
        let head = seq![
            ("id"@, FieldModel::Int(self.id as int)),
            ("type"@, FieldModel::Text(if self.service { "service"@ } else { "message"@ })),
            ("date"@, FieldModel::Text(chrono_export_date(self.date))),
            ("date_unixtime"@, FieldModel::Text(int_decimal(self.date as int))),
        ];
        if self.service {
            head
        } else {
            head + self.content_fields()
        }
    }
}

fn button_row(row: &Vec<InlineButton>) -> (r: Vec<TypedText>)
    ensures
        typed_texts(r@) == row@.map_values(|b: InlineButton| (button_kind_text(b.kind), b.text@)),
{
    let mut cells: Vec<TypedText> = Vec::new();
    let mut j: usize = 0;
    while j < row.len()
        invariant
            j <= row@.len(),
            cells@.len() == j,
            forall|k: int| 0 <= k < j ==> (#[trigger] cells@[k]).kind@ == button_kind_text(row@[k].kind) && cells@[k].text@ == row@[k].text@,
        decreases row.len() - j,
    {
        let b = &row[j];
        let kind = String::from_str(button_kind_str(b.kind));
        let text = b.text.clone();
        cells.push(TypedText { kind, text });
        j += 1;
    }
    assert(typed_texts(cells@) =~= row@.map_values(|b: InlineButton| (button_kind_text(b.kind), b.text@)));
    cells
}

fn button_rows(rows: &Vec<Vec<InlineButton>>) -> (r: Vec<Vec<TypedText>>)
    ensures
        r@.map_values(|row: Vec<TypedText>| typed_texts(row@)) == button_rows_model(rows@),
{
    let mut out: Vec<Vec<TypedText>> = Vec::new();
    let mut i: usize = 0;
    while i < rows.len()
        invariant
            i <= rows@.len(),
            out@.len() == i,
            forall|k: int| 0 <= k < i ==> typed_texts((#[trigger] out@[k])@) == rows@[k]@.map_values(|b: InlineButton| (button_kind_text(b.kind), b.text@)),
        decreases rows.len() - i,
    {
        let cells = button_row(&rows[i]);
        out.push(cells);
        i += 1;
    }
    assert(out@.map_values(|row: Vec<TypedText>| typed_texts(row@)) =~= button_rows_model(rows@));
    out
}

fn push_field(out: &mut Vec<(String, ExportField)>, key: &str, value: ExportField)
    ensures
        field_models(final(out)@) == field_models(old(out)@).push((key@, value.model())),
{
    let ghost before = out@;
    out.push((String::from_str(key), value));
    assert(field_models(out@) =~= field_models(before).push((key@, value.model())));
}

impl ExportMessage {
    fn push_edited(&self, out: &mut Vec<(String, ExportField)>)
        requires
            self.dates_in_range(),
        ensures
            field_models(final(out)@) == field_models(old(out)@) + self.edited_fields(),
    {
        let ghost before = field_models(out@);
        if let Some(edited) = self.edited {
            push_field(out, "edited", ExportField::Text(export_date(edited)));
            push_field(out, "edited_unixtime", ExportField::Text(i64_to_string(edited)));
        }
        assert(field_models(out@) =~= before + self.edited_fields());
    }

    fn push_from(&self, out: &mut Vec<(String, ExportField)>)
        ensures
            field_models(final(out)@) == field_models(old(out)@) + self.from_fields(),
    {
        let ghost before = field_models(out@);
        if let Some(from) = &self.from {
            push_field(out, "from", ExportField::Text(from.0.clone()));
            push_field(out, "from_id", ExportField::Text(from.1.clone()));
        }
        assert(field_models(out@) =~= before + self.from_fields());
    }

    fn push_reply(&self, out: &mut Vec<(String, ExportField)>)
        ensures
            field_models(final(out)@) == field_models(old(out)@) + self.reply_fields(),
    {
        let ghost before = field_models(out@);
        if let Some(reply_to) = self.reply_to_message_id {
            push_field(out, "reply_to_message_id", ExportField::Int(reply_to as i64));
        }
        assert(field_models(out@) =~= before + self.reply_fields());
    }

    fn push_media(&self, out: &mut Vec<(String, ExportField)>)
        ensures
            field_models(final(out)@) == field_models(old(out)@) + self.media_fields(),
    {
        let ghost before = field_models(out@);
        match &self.media {
            Some(ExportMedia::Photo(photo)) => {
                push_field(out, "photo", ExportField::Text(photo.clone()));
            },
            Some(ExportMedia::Document { mime_type }) => {
                push_field(out, "file", ExportField::Text(String::from_str("(file)")));
                if let Some(mime_type) = mime_type {
                    push_field(out, "mime_type", ExportField::Text(mime_type.clone()));
                }
            },
            None => {},
        }
        assert(field_models(out@) =~= before + self.media_fields());
    }

    fn push_text(&self, out: &mut Vec<(String, ExportField)>)
        ensures
            field_models(final(out)@) == field_models(old(out)@) + self.text_fields(),
    {
        let ghost before = field_models(out@);
        push_field(out, "text", ExportField::Text(self.text.clone()));
        let mut entities: Vec<TypedText> = Vec::new();
        if self.text.as_str().unicode_len() > 0 {
            entities.push(TypedText { kind: String::from_str("plain"), text: self.text.clone() });
        }
        assert(typed_texts(entities@) =~= (if self.text@.len() == 0 {
            Seq::empty()
        } else {
            seq![("plain"@, self.text@)]
        }));
        push_field(out, "text_entities", ExportField::Entities(entities));
        assert(field_models(out@) =~= before + self.text_fields());
    }

    fn push_buttons(&self, out: &mut Vec<(String, ExportField)>)
        ensures
            field_models(final(out)@) == field_models(old(out)@) + self.button_fields(),
    {
        let ghost before = field_models(out@);
        if self.inline_buttons.len() > 0 {
            let rows = button_rows(&self.inline_buttons);
            push_field(out, "inline_bot_buttons", ExportField::Buttons(rows));
        }
        assert(field_models(out@) =~= before + self.button_fields());
    }

    /// Whether the message's dates can be written (see `dates_in_range`).
    pub fn dates_supported(&self) -> (r: bool)
        ensures
            r == self.dates_in_range(),
    {
        let date_ok = EARLIEST_EXPORT_TIMESTAMP <= self.date && self.date <= LATEST_EXPORT_TIMESTAMP;
        let edited_ok = match self.edited {
            Some(e) => EARLIEST_EXPORT_TIMESTAMP <= e && e <= LATEST_EXPORT_TIMESTAMP,
            None => true,
        };
        date_ok && edited_ok
    }

    /// The message's fields in the export document (see `json_spec`).
    #[verifier::rlimit(60)]
    #[verifier::spinoff_prover]
    pub fn to_json(&self) -> (fields: Vec<(String, ExportField)>)
        requires
            self.dates_in_range(),
        ensures
            field_models(fields@) == self.json_spec(),
    {
        let mut out: Vec<(String, ExportField)> = Vec::new();
        push_field(&mut out, "id", ExportField::Int(self.id as i64));
        push_field(&mut out, "type", ExportField::Text(String::from_str(if self.service { "service" } else { "message" })));
        push_field(&mut out, "date", ExportField::Text(export_date(self.date)));
        push_field(&mut out, "date_unixtime", ExportField::Text(i64_to_string(self.date)));
        let ghost head = field_models(out@);
        assert(head =~= seq![
            ("id"@, FieldModel::Int(self.id as int)),
            ("type"@, FieldModel::Text(if self.service { "service"@ } else { "message"@ })),
            ("date"@, FieldModel::Text(chrono_export_date(self.date))),
            ("date_unixtime"@, FieldModel::Text(int_decimal(self.date as int))),
        ]);
        if self.service {
            return out;
        }
        self.push_edited(&mut out);
        self.push_from(&mut out);
        self.push_reply(&mut out);
        self.push_media(&mut out);
        self.push_text(&mut out);
        self.push_buttons(&mut out);
        assert(field_models(out@) =~= head + self.content_fields());
        out
    }
}

/// The document fields hold one under `key`.
pub open spec fn has_key(fields: Seq<(Seq<char>, FieldModel)>, key: Seq<char>) -> bool {
    exists|i: int| #![trigger fields[i]] 0 <= i < fields.len() && fields[i].0 == key
}

proof fn lemma_has_key_concat(a: Seq<(Seq<char>, FieldModel)>, b: Seq<(Seq<char>, FieldModel)>, key: Seq<char>)
    ensures
        has_key(a + b, key) == (has_key(a, key) || has_key(b, key)),
{
    let ab = a + b;
    if has_key(ab, key) {
        let i = choose|i: int| #![trigger ab[i]] 0 <= i < ab.len() && ab[i].0 == key;
        if i < a.len() {
            assert(a[i] == ab[i]);
        } else {
            assert(b[i - a.len()] == ab[i]);
        }
    }
    if has_key(a, key) {
        let i = choose|i: int| #![trigger a[i]] 0 <= i < a.len() && a[i].0 == key;
        assert(ab[i] == a[i]);
    }
    if has_key(b, key) {
        let i = choose|i: int| #![trigger b[i]] 0 <= i < b.len() && b[i].0 == key;
        assert(ab[i + a.len()] == b[i]);
    }
}

/// `has_key` of at most four fields, spelled out.
pub open spec fn has_key_among_four(fields: Seq<(Seq<char>, FieldModel)>, key: Seq<char>) -> bool {
    (fields.len() > 0 && fields[0].0 == key) || (fields.len() > 1 && fields[1].0 == key)
        || (fields.len() > 2 && fields[2].0 == key) || (fields.len() > 3 && fields[3].0 == key)
}

proof fn lemma_has_key_small(fields: Seq<(Seq<char>, FieldModel)>, key: Seq<char>)
    requires
        fields.len() <= 4,
    ensures
        has_key(fields, key) == has_key_among_four(fields, key),
{
    if fields.len() > 0 {
        assert(fields[0] == fields[0]);
    }
    if fields.len() > 1 {
        assert(fields[1] == fields[1]);
    }
    if fields.len() > 2 {
        assert(fields[2] == fields[2]);
    }
    if fields.len() > 3 {
        assert(fields[3] == fields[3]);
    }
}

/// The keys of an exported message that is not a service message: its type is
/// `message`; `edited` and `edited_unixtime` are present exactly when it was edited,
/// `from` and `from_id` exactly when it has a sender, `reply_to_message_id` exactly when
/// it replies, `photo` exactly for a photo, `file` exactly for a document and `mime_type`
/// exactly for a document with a known type, `inline_bot_buttons` exactly when it has
/// buttons; `text` and `text_entities` are always present.
pub proof fn lemma_export_message_keys(m: ExportMessage)
    requires
        !m.service,
    ensures
        m.json_spec()[1] == ("type"@, FieldModel::Text("message"@)),
        has_key(m.json_spec(), "edited"@) <==> m.edited is Some,
        has_key(m.json_spec(), "edited_unixtime"@) <==> m.edited is Some,
        has_key(m.json_spec(), "from"@) <==> m.from is Some,
        has_key(m.json_spec(), "from_id"@) <==> m.from is Some,
        has_key(m.json_spec(), "reply_to_message_id"@) <==> m.reply_to_message_id is Some,
        has_key(m.json_spec(), "photo"@) <==> m.media matches Some(ExportMedia::Photo(_)),
        has_key(m.json_spec(), "file"@) <==> m.media matches Some(ExportMedia::Document { .. }),
        has_key(m.json_spec(), "mime_type"@) <==> m.media matches Some(ExportMedia::Document { mime_type: Some(_) }),
        has_key(m.json_spec(), "inline_bot_buttons"@) <==> m.inline_buttons@.len() > 0,
        has_key(m.json_spec(), "text"@),
        has_key(m.json_spec(), "text_entities"@),
{
    reveal_strlit("id");
    reveal_strlit("type");
    reveal_strlit("message");
    reveal_strlit("date");
    reveal_strlit("date_unixtime");
    reveal_strlit("edited");
    reveal_strlit("edited_unixtime");
    reveal_strlit("from");
    reveal_strlit("from_id");
    reveal_strlit("reply_to_message_id");
    reveal_strlit("photo");
    reveal_strlit("file");
    reveal_strlit("mime_type");
    reveal_strlit("text");
    reveal_strlit("text_entities");
    reveal_strlit("inline_bot_buttons");
    let head = seq![
        ("id"@, FieldModel::Int(m.id as int)),
        ("type"@, FieldModel::Text("message"@)),
        ("date"@, FieldModel::Text(chrono_export_date(m.date))),
        ("date_unixtime"@, FieldModel::Text(int_decimal(m.date as int))),
    ];
    let e = m.edited_fields();
    let f = m.from_fields();
    let r = m.reply_fields();
    let md = m.media_fields();
    let t = m.text_fields();
    let b = m.button_fields();
    assert(m.json_spec() == head + (e + f + r + md + t + b));
    assert(m.json_spec()[1] == head[1]);
    let keys = seq![
        "edited"@, "edited_unixtime"@, "from"@, "from_id"@, "reply_to_message_id"@, "photo"@, "file"@,
        "mime_type"@, "text"@, "text_entities"@, "inline_bot_buttons"@,
    ];
    assert forall|k: int| 0 <= k < keys.len() implies {
        let key = #[trigger] keys[k];
        &&& has_key(m.json_spec(), key) == (has_key(head, key) || has_key(e, key) || has_key(f, key) || has_key(r, key)
            || has_key(md, key) || has_key(t, key) || has_key(b, key))
        &&& !has_key(head, key)
        &&& has_key(e, key) == has_key_among_four(e, key)
        &&& has_key(f, key) == has_key_among_four(f, key)
        &&& has_key(r, key) == has_key_among_four(r, key)
        &&& has_key(md, key) == has_key_among_four(md, key)
        &&& has_key(t, key) == has_key_among_four(t, key)
        &&& has_key(b, key) == has_key_among_four(b, key)
    } by {
        let key = keys[k];
        lemma_has_key_concat(head, e + f + r + md + t + b, key);
        lemma_has_key_concat(e + f + r + md + t, b, key);
        lemma_has_key_concat(e + f + r + md, t, key);
        lemma_has_key_concat(e + f + r, md, key);
        lemma_has_key_concat(e + f, r, key);
        lemma_has_key_concat(e, f, key);
        lemma_has_key_small(head, key);
        lemma_has_key_small(e, key);
        lemma_has_key_small(f, key);
        lemma_has_key_small(r, key);
        lemma_has_key_small(md, key);
        lemma_has_key_small(t, key);
        lemma_has_key_small(b, key);
        assert(key.len() != 2);
        assert("type"@[1] == 'y' && "text"@[1] == 'e' && "date"@[0] == 'd' && "from"@[0] == 'f');
        assert("file"@[1] == 'i' && "from"@[1] == 'r' && "date_unixtime"@[0] == 'd' && "text_entities"@[0] == 't');
    }
    assert(keys[0] == "edited"@);
    assert(keys[1] == "edited_unixtime"@);
    assert(keys[2] == "from"@);
    assert(keys[3] == "from_id"@);
    assert(keys[4] == "reply_to_message_id"@);
    assert(keys[5] == "photo"@);
    assert(keys[6] == "file"@);
    assert(keys[7] == "mime_type"@);
    assert(keys[8] == "text"@);
    assert(keys[9] == "text_entities"@);
    assert(keys[10] == "inline_bot_buttons"@);
    assert("edited"@.len() == 6 && "photo"@.len() == 5 && "file"@.len() == 4 && "text"@.len() == 4);
    assert("from"@.len() == 4 && "mime_type"@.len() == 9 && "from_id"@.len() == 7);
    assert("text_entities"@.len() == 13 && "edited_unixtime"@.len() == 15 && "reply_to_message_id"@.len() == 19);
    assert("inline_bot_buttons"@.len() == 18);
    assert("from"@[1] == 'r' && "file"@[1] == 'i' && "text"@[0] == 't' && "from"@[0] == 'f' && "file"@[0] == 'f');
    assert("from"@ != "file"@);
    assert("from"@ != "text"@);
    assert("file"@ != "text"@);
}

} // verus!
