//! The VRChat output log: which files are logs, which of them is the
//! latest, how far it has been read, and what its lines report about
//! players joining and leaving.

use vstd::prelude::*;

use crate::notify::JoinType;
use crate::text::{chars_of, contains_seq, contains_str, find_from, occurs_at, string_from_chars};

verus! {

/// A capture of `marker (.+)` starts at `i`: `marker` stands there and at
/// least one character other than a line feed follows it.
pub open spec fn capture_starts_at(t: Seq<char>, marker: Seq<char>, i: int) -> bool {
    &&& occurs_at(t, marker, i)
    &&& i + marker.len() < t.len()
    &&& t[i + marker.len()] != '\n'
}

/// `i` is the leftmost index where a capture of `marker (.+)` starts.
pub open spec fn is_first_capture(t: Seq<char>, marker: Seq<char>, i: int) -> bool {
    &&& capture_starts_at(t, marker, i)
    &&& forall|j: int| 0 <= j < i ==> !capture_starts_at(t, marker, j)
}

/// `e` ends the run of characters other than a line feed that starts at `k`.
pub open spec fn is_run_end(t: Seq<char>, k: int, e: int) -> bool {
    &&& k <= e <= t.len()
    &&& forall|j: int| k <= j < e ==> t[j] != '\n'
    &&& (e == t.len() || t[e] == '\n')
}

/// What the group of `marker (.+)` captures in `t` at the leftmost match:
/// everything after the marker up to the next line feed.
pub open spec fn capture_of(t: Seq<char>, marker: Seq<char>) -> Option<Seq<char>> {
    if exists|i: int| capture_starts_at(t, marker, i) {
        let i = choose|i: int| is_first_capture(t, marker, i);
        let k = i + marker.len();
        let e = choose|e: int| is_run_end(t, k, e);
        Some(t.subrange(k, e))
    } else {
        None
    }
}

/// The marker of a player joining the signed-in user's instance.
pub open spec fn joined_marker() -> Seq<char> {
    "[Behaviour] OnPlayerJoined "@
}

/// The marker of a player leaving the signed-in user's instance.
pub open spec fn left_marker() -> Seq<char> {
    "[Behaviour] OnPlayerLeft "@
}

/// The marker of the signed-in user entering a room.
pub open spec fn joined_room_marker() -> Seq<char> {
    "[Behaviour] OnJoinedRoom"@
}

/// The marker of the signed-in user leaving a room.
pub open spec fn left_room_marker() -> Seq<char> {
    "[Behaviour] OnLeftRoom"@
}

/// What a log line reports, patterns tried in turn: a player joined (with
/// the name), a player left (with the name), the user joined a room, the
/// user left a room.
pub open spec fn line_event(t: Seq<char>) -> Option<(JoinType, Option<Seq<char>>)> {
    if capture_of(t, joined_marker()) is Some {
        Some((JoinType::PlayerJoined, capture_of(t, joined_marker())))
    } else if capture_of(t, left_marker()) is Some {
        Some((JoinType::PlayerLeft, capture_of(t, left_marker())))
    } else if contains_seq(t, joined_room_marker()) {
        Some((JoinType::JoinedRoom, None))
    } else if contains_seq(t, left_room_marker()) {
        Some((JoinType::LeftRoom, None))
    } else {
        None
    }
}

proof fn lemma_first_capture_unique(t: Seq<char>, marker: Seq<char>, i: int, j: int)
    requires
        is_first_capture(t, marker, i),
        is_first_capture(t, marker, j),
    ensures
        i == j,
{
    if i < j {
        assert(!capture_starts_at(t, marker, i));
    } else if j < i {
        assert(!capture_starts_at(t, marker, j));
    }
}

proof fn lemma_run_end_unique(t: Seq<char>, k: int, e: int, f: int)
    requires
        is_run_end(t, k, e),
        is_run_end(t, k, f),
    ensures
        e == f,
{
    if e < f {
        assert(t[e] != '\n');
    } else if f < e {
        assert(t[f] != '\n');
    }
}

/// What `marker (.+)` captures follows the marker in the text, is not
/// empty, and holds no line feed; and nothing is captured exactly when no
/// occurrence of the marker is followed by a character other than a line
/// feed.
pub proof fn lemma_capture_shape(t: Seq<char>, marker: Seq<char>)
    ensures
        capture_of(t, marker) matches Some(n) ==> contains_seq(t, marker + n) && n.len() > 0
            && forall|j: int| 0 <= j < n.len() ==> n[j] != '\n',
        (capture_of(t, marker) is None) == (forall|i: int|
            !(occurs_at(t, marker, i) && i + marker.len() < t.len() && t[i + marker.len()]
                != '\n')),
{
    if exists|i: int| capture_starts_at(t, marker, i) {
        let i0 = choose|i: int| capture_starts_at(t, marker, i);
        lemma_first_capture_exists(t, marker, i0);
        let i = choose|i: int| is_first_capture(t, marker, i);
        let k = i + marker.len();
        let e0 = lemma_run_end_exists(t, k);
        let e = choose|e: int| is_run_end(t, k, e);
        let n = t.subrange(k, e);
        assert(e > k);
        assert(t.subrange(i, i + (marker + n).len()) =~= marker + n);
        assert(occurs_at(t, marker + n, i));
    } else {
        assert forall|i: int|
            !(occurs_at(t, marker, i) && i + marker.len() < t.len() && t[i + marker.len()]
                != '\n') by {
            assert(!capture_starts_at(t, marker, i));
        }
    }
}

proof fn lemma_first_capture_exists(t: Seq<char>, marker: Seq<char>, i: int)
    requires
        capture_starts_at(t, marker, i),
    ensures
        exists|j: int| is_first_capture(t, marker, j),
    decreases i,
{
    if forall|j: int| 0 <= j < i ==> !capture_starts_at(t, marker, j) {
        assert(is_first_capture(t, marker, i));
    } else {
        let j = choose|j: int| 0 <= j < i && capture_starts_at(t, marker, j);
        lemma_first_capture_exists(t, marker, j);
    }
}

proof fn lemma_run_end_exists(t: Seq<char>, k: int) -> (e: int)
    requires
        0 <= k <= t.len(),
    ensures
        is_run_end(t, k, e),
    decreases t.len() - k,
{
    if k == t.len() || t[k] == '\n' {
        k
    } else {
        lemma_run_end_exists(t, k + 1)
    }
}

/// The group of `marker (.+)` at its leftmost match in `t`.
pub fn capture_after(t: &Vec<char>, marker: &Vec<char>) -> (r: Option<Vec<char>>)
    ensures
        r matches Some(c) ==> capture_of(t@, marker@) == Some(c@),
        r is None <==> capture_of(t@, marker@) is None,
{
    let mut from: usize = 0;
    while from <= t.len()
        invariant
            forall|j: int| 0 <= j < from ==> !capture_starts_at(t@, marker@, j),
        decreases t.len() + 1 - from,
    {
        match find_from(t.as_slice(), marker.as_slice(), from) {
            None => {
                assert forall|j: int| !capture_starts_at(t@, marker@, j) by {
                    if from <= j {
                    }
                }
                return None;
            },
            Some(i) => {
                let k = i + marker.len();
                if k < t.len() && t[k] != '\n' {
                    assert(is_first_capture(t@, marker@, i as int));
                    let mut e: usize = k;
                    while e < t.len() && t[e] != '\n'
                        invariant
                            k <= e <= t.len(),
                            forall|j: int| k <= j < e ==> t@[j] != '\n',
                        decreases t.len() - e,
                    {
                        e = e + 1;
                    }
                    let mut c: Vec<char> = Vec::new();
                    let mut m: usize = k;
                    while m < e
                        invariant
                            k <= m <= e <= t.len(),
                            c@ == t@.subrange(k as int, m as int),
                        decreases e - m,
                    {
                        c.push(t[m]);
                        m = m + 1;
                        assert(c@ =~= t@.subrange(k as int, m as int));
                    }
                    proof {
                        assert(is_run_end(t@, k as int, e as int));
                        let i2 = choose|i2: int| is_first_capture(t@, marker@, i2);
                        lemma_first_capture_unique(t@, marker@, i as int, i2);
                        let e2 = choose|e2: int| is_run_end(t@, k as int, e2);
                        lemma_run_end_unique(t@, k as int, e as int, e2);
                    }
                    return Some(c);
                }
                if i >= t.len() {
                    assert forall|j: int| !capture_starts_at(t@, marker@, j) by {
                        if from <= j < i {
                            assert(!occurs_at(t@, marker@, j));
                        }
                    }
                    return None;
                }
                from = i + 1;
            },
        }
    }
    None
}

/// What a log line reports: a player joined or left (with their name), or
/// the signed-in user joined or left a room.
pub fn parse_line(line: &str) -> (r: Option<(JoinType, Option<String>)>)
    ensures
        match r {
            Some((t, Some(name))) => line_event(line@) == Some((t, Some(name@))),
            Some((t, None)) => line_event(line@) == Some((t, None::<Seq<char>>)),
            None => line_event(line@) is None,
        },
        r matches Some((JoinType::PlayerJoined, Some(n))) ==> contains_seq(
            line@,
            "[Behaviour] OnPlayerJoined "@ + n@,
        ) && n@.len() > 0 && forall|j: int| 0 <= j < n@.len() ==> n@[j] != '\n',
        r matches Some((JoinType::PlayerLeft, Some(n))) ==> contains_seq(
            line@,
            "[Behaviour] OnPlayerLeft "@ + n@,
        ) && n@.len() > 0 && forall|j: int| 0 <= j < n@.len() ==> n@[j] != '\n',
        r matches Some((JoinType::JoinedRoom, _)) ==> contains_seq(
            line@,
            "[Behaviour] OnJoinedRoom"@,
        ),
        r matches Some((JoinType::LeftRoom, _)) ==> contains_seq(line@, "[Behaviour] OnLeftRoom"@),
        r is None ==> !contains_seq(line@, "[Behaviour] OnJoinedRoom"@) && !contains_seq(
            line@,
            "[Behaviour] OnLeftRoom"@,
        ),
        r matches Some((jt, c)) ==> (c is Some <==> (jt == JoinType::PlayerJoined || jt
            == JoinType::PlayerLeft)),
{
    proof {
        lemma_capture_shape(line@, joined_marker());
        lemma_capture_shape(line@, left_marker());
    }
    let t = chars_of(line);
    let joined = chars_of("[Behaviour] OnPlayerJoined ");
    if let Some(c) = capture_after(&t, &joined) {
        return Some((JoinType::PlayerJoined, Some(string_from_chars(c.as_slice()))));
    }
    let left = chars_of("[Behaviour] OnPlayerLeft ");
    if let Some(c) = capture_after(&t, &left) {
        return Some((JoinType::PlayerLeft, Some(string_from_chars(c.as_slice()))));
    }
    if contains_str(line, "[Behaviour] OnJoinedRoom") {
        return Some((JoinType::JoinedRoom, None));
    }
    if contains_str(line, "[Behaviour] OnLeftRoom") {
        return Some((JoinType::LeftRoom, None));
    }
    None
}

/// The player event a log line reports, for a notification: a player who
/// joined or left, with their name. Room events give none.
pub fn player_event(line: &str) -> (r: Option<(JoinType, String)>)
    ensures
        match r {
            Some((t, name)) => (t == JoinType::PlayerJoined || t == JoinType::PlayerLeft)
                && line_event(line@) == Some((t, Some(name@))),
            None => !(line_event(line@) matches Some((t, Some(_))) && (t == JoinType::PlayerJoined
                || t == JoinType::PlayerLeft)),
        },
{
    match parse_line(line) {
        Some((JoinType::PlayerJoined, Some(name))) => Some((JoinType::PlayerJoined, name)),
        Some((JoinType::PlayerLeft, Some(name))) => Some((JoinType::PlayerLeft, name)),
        _ => None,
    }
}

/// The file name of a VRChat output log: `output_log_`, any characters
/// but a line feed, `.txt`.
pub open spec fn is_log_name(t: Seq<char>) -> bool {
    &&& t.len() >= 15
    &&& t.take(11) == "output_log_"@
    &&& t.skip(t.len() - 4) == ".txt"@
    &&& forall|j: int| 11 <= j < t.len() - 4 ==> t[j] != '\n'
}

/// Whether `name` is the file name of a VRChat output log.
pub fn is_log_file_name(name: &str) -> (b: bool)
    ensures
        b == is_log_name(name@),
{
    let t = chars_of(name);
    if t.len() < 15 {
        return false;
    }
    let prefix = chars_of("output_log_");
    let suffix = chars_of(".txt");
    if prefix.len() != 11 || suffix.len() != 4 {
        return false;
    }
    if !crate::text::occurs_at_exec(t.as_slice(), prefix.as_slice(), 0) {
        assert(t@.subrange(0, 11) =~= t@.take(11));
        return false;
    }
    if !crate::text::occurs_at_exec(t.as_slice(), suffix.as_slice(), t.len() - 4) {
        assert(t@.subrange(t.len() - 4, t.len() as int) =~= t@.skip(t.len() - 4));
        return false;
    }
    assert(t@.subrange(0, 11) =~= t@.take(11));
    assert(t@.subrange(t.len() - 4, t.len() as int) =~= t@.skip(t.len() - 4));
    let mut j: usize = 11;
    while j < t.len() - 4
        invariant
            11 <= j <= t.len() - 4,
            t.len() >= 15,
            t@ == name@,
            forall|k: int| 11 <= k < j ==> t@[k] != '\n',
        decreases t.len() - 4 - j,
    {
        if t[j] == '\n' {
            assert(t@[j as int] == '\n');
            return false;
        }
        j = j + 1;
    }
    true
}

/// `i` is the entry that a map keyed by time keeps last at the greatest
/// time: no entry is later than it, and none after it is as late.
pub open spec fn is_latest_entry(entries: Seq<(u128, String)>, i: int) -> bool {
    &&& 0 <= i < entries.len()
    &&& forall|j: int| 0 <= j < entries.len() ==> entries[j].0 <= entries[i].0
    &&& forall|j: int| i < j < entries.len() ==> entries[j].0 < entries[i].0
}

/// The path of the latest log among `(modified time, path)` entries: of
/// the entries with the greatest time, the last one.
pub fn latest_log_path(entries: &Vec<(u128, String)>) -> (r: Option<String>)
    ensures
        r is None <==> entries.len() == 0,
        r matches Some(p) ==> exists|i: int| is_latest_entry(entries@, i) && p == entries@[i].1,
{
    if entries.len() == 0 {
        return None;
    }
    let mut best: usize = 0;
    let mut k: usize = 1;
    while k < entries.len()
        invariant
            1 <= k <= entries.len(),
            best < k,
            forall|j: int| 0 <= j < k ==> entries@[j].0 <= entries@[best as int].0,
            forall|j: int| best < j < k ==> entries@[j].0 < entries@[best as int].0,
        decreases entries.len() - k,
    {
        if entries[k].0 >= entries[best].0 {
            best = k;
        }
        k = k + 1;
    }
    assert(is_latest_entry(entries@, best as int));
    Some(entries[best].1.clone())
}

/// Where reading the log has got to: which file, and how many bytes of it
/// have been read.
pub struct LogCursor {
    pub path: Option<String>,
    pub last_pos: usize,
}

impl LogCursor {
    /// No file yet.
    pub fn new() -> (c: Self)
        ensures
            c.path is None,
            c.last_pos == 0,
    {
        LogCursor { path: None, last_pos: 0 }
    }

    /// Takes note of the latest log file. Returns whether this is the first
    /// look at the logs (whose lines are then skipped, not reported). A new
    /// file is read from its start; the same file from where reading
    /// stopped.
    pub fn observe(&mut self, latest: String) -> (first: bool)
        ensures
            first == old(self).path is None,
            (old(self).path matches Some(p) && p@ == latest@) ==> *final(self) == *old(self),
            !(old(self).path matches Some(p) && p@ == latest@) ==> final(self).path == Some(latest)
                && final(self).last_pos == 0,
    {
        let first = self.path.is_none();
        let same = match &self.path {
            Some(p) => *p == latest,
            None => false,
        };
        if !same {
            self.path = Some(latest);
            self.last_pos = 0;
        }
        first
    }

    /// Takes note that `n` more bytes were read.
    pub fn advance(&mut self, n: usize)
        requires
            old(self).last_pos + n <= usize::MAX,
        ensures
            final(self).last_pos == old(self).last_pos + n,
            final(self).path == old(self).path,
    {
        self.last_pos = self.last_pos + n;
    }
}

} // verus!
