//! The bounded log of responses, newest first.
use crate::client::response::{is_game_tick, DomainResponse, ResponseType};
use crate::client::text::{compact_message, compacted};
use std::collections::VecDeque;
use vstd::prelude::*;

verus! {

/// How many responses the log keeps before it starts dropping old ones.
pub const MAX_RESPONSES: usize = 100;

/// Whether a response is listed when game tick notifications are hidden
/// (`hide`) or not.
pub open spec fn is_shown(hide: bool, r: DomainResponse) -> bool {
    !hide || !is_game_tick(r)
}

/// The responses that are listed, in log order (newest first).
pub open spec fn shown_responses(s: Seq<DomainResponse>, hide: bool) -> Seq<DomainResponse> {
    s.filter(|r: DomainResponse| is_shown(hide, r))
}

/// Index of the oldest game tick notification in the log (the one nearest
/// the back), if there is one.
pub open spec fn oldest_game_tick_index(s: Seq<DomainResponse>) -> Option<int>
    decreases s.len(),
{
    if s.len() == 0 {
        None
    } else if is_game_tick(s.last()) {
        Some(s.len() - 1)
    } else {
        oldest_game_tick_index(s.drop_last())
    }
}

/// The log after `r` is added to the front of `s`: when `s` is full, the
/// oldest game tick notification is dropped, or, when there is none, the
/// oldest response.
pub open spec fn log_after_push(s: Seq<DomainResponse>, r: DomainResponse) -> Seq<DomainResponse> {
    let kept = if s.len() >= MAX_RESPONSES {
        match oldest_game_tick_index(s) {
            Some(i) => s.remove(i),
            None => s.drop_last(),
        }
    } else {
        s
    };
    seq![r] + kept
}

/// The list of responses received by the client, newest at the front.
#[derive(Debug)]
pub struct ResponseListWidget {
    pub responses: VecDeque<DomainResponse>,
}

proof fn lemma_oldest_game_tick_index_bounds(s: Seq<DomainResponse>)
    ensures
        oldest_game_tick_index(s) matches Some(i) ==> 0 <= i < s.len() && is_game_tick(s[i]),
        oldest_game_tick_index(s) matches Some(i) ==> forall|j: int|
            i < j < s.len() ==> !is_game_tick(#[trigger] s[j]),
        oldest_game_tick_index(s) is None ==> forall|j: int|
            0 <= j < s.len() ==> !is_game_tick(#[trigger] s[j]),
    decreases s.len(),
{
    if s.len() > 0 {
        let d = s.drop_last();
        lemma_oldest_game_tick_index_bounds(d);
        assert forall|j: int| 0 <= j < d.len() implies d[j] == s[j] by {}
    }
}

proof fn lemma_shown_take_step(s: Seq<DomainResponse>, hide: bool, i: int)
    requires
        0 <= i < s.len(),
    ensures
        shown_responses(s.take(i + 1), hide) == if is_shown(hide, s[i]) {
            shown_responses(s.take(i), hide).push(s[i])
        } else {
            shown_responses(s.take(i), hide)
        },
{
    reveal(Seq::filter);
    assert(s.take(i + 1).drop_last() =~= s.take(i));
}

proof fn lemma_shown_prefix(s: Seq<DomainResponse>, hide: bool, i: int)
    requires
        0 <= i <= s.len(),
    ensures
        shown_responses(s, hide) == shown_responses(s.take(i), hide) + shown_responses(
            s.skip(i),
            hide,
        ),
{
    let p = |r: DomainResponse| is_shown(hide, r);
    assert(s =~= s.take(i) + s.skip(i));
    Seq::filter_distributes_over_add(s.take(i), s.skip(i), p);
}

/// With game tick notifications not hidden, every response is listed, in
/// log order.
pub proof fn lemma_nothing_hidden_lists_everything(s: Seq<DomainResponse>)
    ensures
        shown_responses(s, false) == s,
    decreases s.len(),
{
    reveal(Seq::filter);
    if s.len() > 0 {
        lemma_nothing_hidden_lists_everything(s.drop_last());
        assert(s.drop_last().push(s.last()) =~= s);
    }
}

/// Pushing never lets the log grow past `MAX_RESPONSES` once it is within
/// that bound: below the bound the log grows by one, at or above it the
/// length stays the same.
pub proof fn lemma_push_keeps_log_bounded(s: Seq<DomainResponse>, r: DomainResponse)
    ensures
        s.len() < MAX_RESPONSES ==> log_after_push(s, r).len() == s.len() + 1,
        s.len() >= MAX_RESPONSES ==> log_after_push(s, r).len() == s.len(),
        s.len() <= MAX_RESPONSES ==> log_after_push(s, r).len() <= MAX_RESPONSES,
{
    lemma_oldest_game_tick_index_bounds(s);
}

/// The pushed response becomes the newest entry, and it is the first one
/// listed unless it is hidden.
pub proof fn lemma_push_puts_newest_first(s: Seq<DomainResponse>, r: DomainResponse, hide: bool)
    ensures
        log_after_push(s, r)[0] == r,
        is_shown(hide, r) ==> shown_responses(log_after_push(s, r), hide)[0] == r,
{
    let after = log_after_push(s, r);
    let p = |x: DomainResponse| is_shown(hide, x);
    lemma_shown_prefix(after, hide, 1);
    assert(after.take(1) =~= seq![r]);
    reveal(Seq::filter);
    assert(seq![r].drop_last() =~= Seq::<DomainResponse>::empty());
}

/// Below the bound, pushing drops nothing: the old log follows the new
/// entry unchanged.
pub proof fn lemma_push_below_bound_keeps_all(s: Seq<DomainResponse>, r: DomainResponse)
    requires
        s.len() < MAX_RESPONSES,
    ensures
        log_after_push(s, r) == seq![r] + s,
{
}

/// While the log has room, a new response that is listed moves every
/// listed response one place down (so a selection that moves along stays
/// on the same entry), and a new response that is hidden leaves the listed
/// responses as they were.
pub proof fn lemma_push_shifts_listed_entries(s: Seq<DomainResponse>, r: DomainResponse, hide: bool, i: int)
    requires
        s.len() < MAX_RESPONSES,
        0 <= i < shown_responses(s, hide).len(),
    ensures
        is_shown(hide, r) ==> shown_responses(log_after_push(s, r), hide)[i + 1] == shown_responses(s, hide)[i],
        is_shown(hide, r) ==> shown_responses(log_after_push(s, r), hide).len() == shown_responses(s, hide).len() + 1,
        !is_shown(hide, r) ==> shown_responses(log_after_push(s, r), hide) == shown_responses(s, hide),
{
    let after = log_after_push(s, r);
    assert(after == seq![r] + s);
    lemma_shown_prefix(after, hide, 1);
    assert(after.take(1) =~= seq![r]);
    assert(after.skip(1) =~= s);
    reveal(Seq::filter);
    assert(seq![r].drop_last() =~= Seq::<DomainResponse>::empty());
    if !is_shown(hide, r) {
        let p = |x: DomainResponse| is_shown(hide, x);
        reveal_with_fuel(Seq::filter, 2);
        assert(seq![r].last() == r);
        assert(seq![r].filter(p) == seq![r].drop_last().filter(p));
        assert(Seq::<DomainResponse>::empty().filter(p) =~= Seq::<DomainResponse>::empty());
        assert(shown_responses(seq![r], hide) =~= Seq::<DomainResponse>::empty());
        assert(shown_responses(after, hide) =~= shown_responses(s, hide));
    }
}

/// When the log is full and holds no game tick notification, pushing drops
/// the oldest entry (the last one) and keeps all others, in order, after the
/// new one; when it holds one, the entry dropped is a game tick
/// notification, and no newer one.
pub proof fn lemma_full_log_drops_oldest(s: Seq<DomainResponse>, r: DomainResponse)
    requires
        s.len() >= MAX_RESPONSES,
    ensures
        (forall|i: int| 0 <= i < s.len() ==> !is_game_tick(#[trigger] s[i])) ==> log_after_push(s, r) == seq![r]
            + s.drop_last(),
        (exists|i: int| 0 <= i < s.len() && is_game_tick(#[trigger] s[i])) ==> exists|k: int|
            0 <= k < s.len() && is_game_tick(#[trigger] s[k]) && log_after_push(s, r) == seq![r] + s.remove(k) && forall|
                j: int,
            | k < j < s.len() ==> !is_game_tick(#[trigger] s[j]),
{
    lemma_oldest_game_tick_index_bounds(s);
    lemma_oldest_game_tick_is_oldest(s);
}

/// The oldest game tick notification is one, and every entry after it (any
/// older one) is not.
proof fn lemma_oldest_game_tick_is_oldest(s: Seq<DomainResponse>)
    ensures
        oldest_game_tick_index(s) matches Some(k) ==> 0 <= k < s.len() && is_game_tick(s[k]) && forall|j: int|
            k < j < s.len() ==> !is_game_tick(#[trigger] s[j]),
        oldest_game_tick_index(s) is None ==> forall|i: int| 0 <= i < s.len() ==> !is_game_tick(#[trigger] s[i]),
    decreases s.len(),
{
    if s.len() > 0 {
        let p = s.drop_last();
        lemma_oldest_game_tick_is_oldest(p);
        if !is_game_tick(s.last()) {
            assert forall|j: int| 0 <= j < p.len() implies s[j] == p[j] by {}
        }
    }
}

/// When the log is full and holds a game tick notification, pushing drops
/// one of those and no other kind of response: every response that is not
/// a game tick notification is still listed, in order, after the new one.
pub proof fn lemma_push_drops_game_ticks_first(s: Seq<DomainResponse>, r: DomainResponse)
    requires
        s.len() >= MAX_RESPONSES,
        exists|i: int| 0 <= i < s.len() && is_game_tick(#[trigger] s[i]),
    ensures
        shown_responses(log_after_push(s, r), true) == shown_responses(seq![r], true)
            + shown_responses(s, true),
{
    lemma_oldest_game_tick_index_bounds(s);
    let i = oldest_game_tick_index(s)->Some_0;
    let p = |x: DomainResponse| is_shown(true, x);
    let left = s.take(i);
    let right = s.skip(i + 1);
    assert(s =~= left + seq![s[i]] + right);
    assert(s.remove(i) =~= left + right);
    Seq::filter_distributes_over_add(left + seq![s[i]], right, p);
    Seq::filter_distributes_over_add(left, seq![s[i]], p);
    Seq::filter_distributes_over_add(left, right, p);
    reveal(Seq::filter);
    let single = seq![s[i]];
    assert(single.drop_last() =~= Seq::<DomainResponse>::empty());
    assert(single.drop_last().filter(p) =~= Seq::<DomainResponse>::empty());
    assert(single.last() == s[i]);
    assert(!p(s[i]));
    assert(single.filter(p) =~= Seq::<DomainResponse>::empty());
    Seq::filter_distributes_over_add(seq![r], s.remove(i), p);
}

impl ResponseListWidget {
    /// An empty log.
    pub fn new() -> (r: Self)
        ensures
            r.responses@ == Seq::<DomainResponse>::empty(),
    {
        ResponseListWidget { responses: VecDeque::with_capacity(MAX_RESPONSES / 2) }
    }

    /// The `index`-th listed response (counting from the newest), skipping
    /// game tick notifications when they are hidden.
    pub fn get_response(&self, index: usize, hide_game_tick_notification: bool) -> (r: Option<
        &DomainResponse,
    >)
        ensures
            ({
                let shown = shown_responses(self.responses@, hide_game_tick_notification);
                r == if (index as int) < shown.len() {
                    Some(&shown[index as int])
                } else {
                    None
                }
            }),
    {
        let ghost s = self.responses@;
        let ghost hide = hide_game_tick_notification;
        let len = self.responses.len();
        let mut counter: usize = 0;
        let mut i: usize = 0;
        while i < len
            invariant
                s == self.responses@,
                hide == hide_game_tick_notification,
                len == s.len(),
                0 <= i <= len,
                counter == shown_responses(s.take(i as int), hide).len(),
                counter <= index,
            decreases len - i,
        {
            proof {
                lemma_shown_take_step(s, hide, i as int);
            }
            let response = &self.responses[i];
            if hide_game_tick_notification && response.is_game_tick_notification() {
                i = i + 1;
                continue;
            }
            if index == counter {
                proof {
                    lemma_shown_prefix(s, hide, i + 1);
                    assert(shown_responses(s, hide)[index as int] == s[i as int]);
                }
                return Some(response);
            }
            proof {
                let p = |r: DomainResponse| is_shown(hide, r);
                s.take(i + 1).lemma_filter_len(p);
            }
            counter = counter + 1;
            i = i + 1;
        }
        proof {
            assert(s.take(len as int) =~= s);
        }
        None
    }

    /// How many responses are listed, leaving out game tick notifications
    /// when they are hidden.
    pub fn visible_count(&self, hide_game_tick_notification: bool) -> (n: usize)
        ensures
            n == shown_responses(self.responses@, hide_game_tick_notification).len(),
    {
        let ghost s = self.responses@;
        let ghost hide = hide_game_tick_notification;
        let len = self.responses.len();
        let mut counter: usize = 0;
        let mut i: usize = 0;
        while i < len
            invariant
                s == self.responses@,
                hide == hide_game_tick_notification,
                len == s.len(),
                0 <= i <= len,
                counter == shown_responses(s.take(i as int), hide).len(),
                counter <= i,
            decreases len - i,
        {
            proof {
                lemma_shown_take_step(s, hide, i as int);
            }
            if !(hide_game_tick_notification && self.responses[i].is_game_tick_notification()) {
                counter = counter + 1;
            }
            i = i + 1;
        }
        proof {
            assert(s.take(len as int) =~= s);
        }
        counter
    }

    /// Adds `response` as the newest entry. When the log already holds
    /// `MAX_RESPONSES` entries or more, one entry is dropped first: the
    /// oldest game tick notification, or the oldest entry when there is none.
    pub fn push(&mut self, response: DomainResponse)
        ensures
            final(self).responses@ == log_after_push(old(self).responses@, response),
    {
        let ghost s = self.responses@;
        let len = self.responses.len();
        if len >= MAX_RESPONSES {
            let mut oldest_game_tick: Option<usize> = None;
            let mut i: usize = 0;
            while i < len
                invariant
                    s == self.responses@,
                    len == s.len(),
                    0 <= i <= len,
                    match oldest_game_tick {
                        Some(k) => oldest_game_tick_index(s.take(i as int)) == Some(k as int),
                        None => oldest_game_tick_index(s.take(i as int)) is None,
                    },
                decreases len - i,
            {
                proof {
                    assert(s.take(i + 1).drop_last() =~= s.take(i as int));
                }
                if self.responses[i].is_game_tick_notification() {
                    oldest_game_tick = Some(i);
                }
                i = i + 1;
            }
            proof {
                assert(s.take(len as int) =~= s);
                lemma_oldest_game_tick_index_bounds(s);
            }
            match oldest_game_tick {
                Some(idx) => {
                    self.responses.remove(idx);
                },
                None => {
                    self.responses.pop_back();
                },
            }
        }
        self.responses.push_front(response);
        proof {
            assert(self.responses@ =~= log_after_push(s, response));
        }
    }
}

/// The width taken by the marker in front of the selected line.
pub const HIGHLIGHT_SYMBOL_WIDTH: u16 = 3;

/// The icon in front of a response of each kind.
pub open spec fn response_icon(t: ResponseType) -> Seq<char> {
    match t {
        ResponseType::Success => "✓  "@,
        ResponseType::Error => "✗  "@,
        ResponseType::Info => "ℹ  "@,
        ResponseType::GameTickeNotification => "ℹ  "@,
    }
}

/// The texts of one line of the log: the time it arrived, the icon of its
/// kind, its code and its message on a single line.
#[derive(Debug)]
pub struct ListItemText {
    pub timestamp: String,
    pub icon: &'static str,
    pub code: String,
    pub message: String,
}

impl ResponseListWidget {
    /// The width left for a line's text in a list `list_width` wide, once
    /// the selection marker is drawn.
    pub fn item_content_width(list_width: u16) -> (w: u16)
        ensures
            w == if list_width > HIGHLIGHT_SYMBOL_WIDTH {
                list_width - HIGHLIGHT_SYMBOL_WIDTH
            } else {
                0
            },
    {
        list_width.saturating_sub(HIGHLIGHT_SYMBOL_WIDTH)
    }

    /// The texts of the line showing `response`, given its arrival time as
    /// formatted for display (none when the time could not be formatted);
    /// none when there is no room for text.
    pub fn create_list_item(
        response: &DomainResponse,
        item_content_width: u16,
        formatted_timestamp: Option<String>,
    ) -> (r: Option<ListItemText>)
        ensures
            (item_content_width == 0) == (r is None),
            r matches Some(t) ==> {
                &&& t.timestamp@ == match formatted_timestamp {
                    Some(f) => f@,
                    None => "TimeErr "@,
                }
                &&& t.icon@ == response_icon(response.response_type)
                &&& t.code@ == response.code@
                &&& t.message@ == compacted(response.message@)
            },
    {
        if item_content_width == 0 {
            return None;
        }
        let timestamp = match formatted_timestamp {
            Some(f) => f,
            None => "TimeErr ".to_owned(),
        };
        let icon = match response.response_type {
            ResponseType::Success => "✓  ",
            ResponseType::Error => "✗  ",
            ResponseType::Info => "ℹ  ",
            ResponseType::GameTickeNotification => "ℹ  ",
        };
        Some(
            ListItemText {
                timestamp,
                icon,
                code: response.code.clone(),
                message: compact_message(response.message.as_str()),
            },
        )
    }
}

impl Default for ResponseListWidget {
    fn default() -> (r: Self)
        ensures
            r.responses@ == Seq::<DomainResponse>::empty(),
    {
        Self::new()
    }
}

} // verus!
