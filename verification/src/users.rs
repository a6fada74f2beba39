//! The friend lists: who is online, who is on the website only and who is
//! offline, kept up to date from the events of the pipeline stream.

use vstd::prelude::*;

use crate::model::{rank, Status, User};

verus! {

/// Holds the users of rank `r`.
pub open spec fn rank_is(r: int) -> spec_fn(User) -> bool {
    |u: User| rank(u.status) == r
}

/// The users of `s` whose status has rank `r`, in their order in `s`.
pub open spec fn of_rank(s: Seq<User>, r: int) -> Seq<User> {
    s.filter(rank_is(r))
}

/// `s` sorted by status, users of equal status in their order in `s`
/// (what a stable sort by status gives).
pub open spec fn sorted_by_status(s: Seq<User>) -> Seq<User> {
    of_rank(s, 0) + of_rank(s, 1) + of_rank(s, 2) + of_rank(s, 3) + of_rank(s, 4)
}

/// No user of `s` comes after one of a later status.
pub open spec fn is_ordered(s: Seq<User>) -> bool {
    forall|i: int, j: int| 0 <= i < j < s.len() ==> rank(s[i].status) <= rank(s[j].status)
}

/// How many users of `s` have the id `id`.
pub open spec fn id_count(s: Seq<User>, id: Seq<char>) -> nat
    decreases s.len(),
{
    if s.len() == 0 {
        0
    } else {
        (if s[0].id@ == id { 1nat } else { 0nat }) + id_count(s.drop_first(), id)
    }
}

/// The index of the first user of `s` with the id `id`.
pub open spec fn first_position(s: Seq<User>, id: Seq<char>) -> Option<int>
    decreases s.len(),
{
    if s.len() == 0 {
        None
    } else if s[0].id@ == id {
        Some(0)
    } else {
        match first_position(s.drop_first(), id) {
            Some(i) => Some(i + 1),
            None => None,
        }
    }
}

/// `s` holds a user with the id `id`.
pub open spec fn has_id(s: Seq<User>, id: Seq<char>) -> bool {
    first_position(s, id) is Some
}

/// `s` without its first user of id `id` (all of `s` when there is none).
pub open spec fn without_first(s: Seq<User>, id: Seq<char>) -> Seq<User> {
    match first_position(s, id) {
        Some(i) => s.remove(i),
        None => s,
    }
}

pub proof fn lemma_first_position(s: Seq<User>, id: Seq<char>)
    ensures
        first_position(s, id) matches Some(i) ==> 0 <= i < s.len() && s[i].id@ == id && (forall|
            j: int,
        | 0 <= j < i ==> s[j].id@ != id),
        first_position(s, id) is None ==> forall|j: int| 0 <= j < s.len() ==> s[j].id@ != id,
    decreases s.len(),
{
    if s.len() > 0 {
        lemma_first_position(s.drop_first(), id);
        assert forall|j: int| 1 <= j < s.len() implies s[j] == s.drop_first()[j - 1] by {}
    }
}

proof fn lemma_first_position_unique(s: Seq<User>, id: Seq<char>, i: int)
    requires
        0 <= i < s.len(),
        s[i].id@ == id,
        forall|j: int| 0 <= j < i ==> s[j].id@ != id,
    ensures
        first_position(s, id) == Some(i),
{
    lemma_first_position(s, id);
    if let Some(k) = first_position(s, id) {
        assert(k == i);
    }
}

proof fn lemma_no_position(s: Seq<User>, id: Seq<char>)
    requires
        forall|j: int| 0 <= j < s.len() ==> s[j].id@ != id,
    ensures
        first_position(s, id) is None,
{
    lemma_first_position(s, id);
}

pub proof fn lemma_id_count_zero(s: Seq<User>, id: Seq<char>)
    ensures
        (id_count(s, id) == 0) == (first_position(s, id) is None),
    decreases s.len(),
{
    if s.len() > 0 {
        lemma_id_count_zero(s.drop_first(), id);
    }
}

pub proof fn lemma_id_count_concat(a: Seq<User>, b: Seq<User>, id: Seq<char>)
    ensures
        id_count(a + b, id) == id_count(a, id) + id_count(b, id),
    decreases a.len(),
{
    if a.len() == 0 {
        assert(a + b =~= b);
    } else {
        assert((a + b).drop_first() =~= a.drop_first() + b);
        lemma_id_count_concat(a.drop_first(), b, id);
    }
}

proof fn lemma_id_count_single(u: User, id: Seq<char>)
    ensures
        id_count(seq![u], id) == (if u.id@ == id { 1nat } else { 0nat }),
{
    assert(seq![u].drop_first() =~= Seq::<User>::empty());
    assert(id_count(Seq::<User>::empty(), id) == 0);
    assert(seq![u][0] == u);
}

pub proof fn lemma_id_count_push(s: Seq<User>, u: User, id: Seq<char>)
    ensures
        id_count(s.push(u), id) == id_count(s, id) + (if u.id@ == id { 1nat } else { 0nat }),
{
    assert(s.push(u) =~= s + seq![u]);
    lemma_id_count_concat(s, seq![u], id);
    lemma_id_count_single(u, id);
}

pub proof fn lemma_id_count_remove(s: Seq<User>, i: int, id: Seq<char>)
    requires
        0 <= i < s.len(),
    ensures
        id_count(s.remove(i), id) + (if s[i].id@ == id { 1nat } else { 0nat }) == id_count(s, id),
{
    let a = s.take(i);
    let b = s.skip(i + 1);
    assert(s =~= a + seq![s[i]] + b);
    assert(s.remove(i) =~= a + b);
    lemma_id_count_concat(a, b, id);
    lemma_id_count_concat(a + seq![s[i]], b, id);
    lemma_id_count_concat(a, seq![s[i]], id);
    lemma_id_count_single(s[i], id);
}

pub proof fn lemma_id_count_update(s: Seq<User>, i: int, u: User, id: Seq<char>)
    requires
        0 <= i < s.len(),
        u.id@ == s[i].id@,
    ensures
        id_count(s.update(i, u), id) == id_count(s, id),
{
    let a = s.take(i);
    let b = s.skip(i + 1);
    assert(s =~= a + seq![s[i]] + b);
    assert(s.update(i, u) =~= a + seq![u] + b);
    lemma_id_count_concat(a + seq![s[i]], b, id);
    lemma_id_count_concat(a, seq![s[i]], id);
    lemma_id_count_concat(a + seq![u], b, id);
    lemma_id_count_concat(a, seq![u], id);
    lemma_id_count_single(s[i], id);
    lemma_id_count_single(u, id);
}

pub proof fn lemma_without_first(s: Seq<User>, id: Seq<char>, x: Seq<char>)
    ensures
        id_count(without_first(s, id), x) + (if x == id && has_id(s, id) { 1nat } else { 0nat })
            == id_count(s, x),
        without_first(s, id).len() + (if has_id(s, id) { 1int } else { 0int }) == s.len(),
{
    lemma_first_position(s, id);
    if let Some(i) = first_position(s, id) {
        lemma_id_count_remove(s, i, x);
    }
}

proof fn lemma_of_rank_push(s: Seq<User>, u: User, r: int)
    ensures
        of_rank(s.push(u), r) == if rank(u.status) == r {
            of_rank(s, r).push(u)
        } else {
            of_rank(s, r)
        },
{
    s.lemma_filter_push(u, rank_is(r));
}

proof fn lemma_of_rank_empty(r: int)
    ensures
        of_rank(Seq::<User>::empty(), r) == Seq::<User>::empty(),
{
    reveal(Seq::filter);
}

/// Sorting keeps every user: as many users, and as many of each id.
pub proof fn lemma_sorted_keeps_users(s: Seq<User>, id: Seq<char>)
    ensures
        sorted_by_status(s).len() == s.len(),
        id_count(sorted_by_status(s), id) == id_count(s, id),
    decreases s.len(),
{
    let t = sorted_by_status(s);
    lemma_id_count_concat(of_rank(s, 0), of_rank(s, 1), id);
    lemma_id_count_concat(of_rank(s, 0) + of_rank(s, 1), of_rank(s, 2), id);
    lemma_id_count_concat(of_rank(s, 0) + of_rank(s, 1) + of_rank(s, 2), of_rank(s, 3), id);
    lemma_id_count_concat(
        of_rank(s, 0) + of_rank(s, 1) + of_rank(s, 2) + of_rank(s, 3),
        of_rank(s, 4),
        id,
    );
    if s.len() == 0 {
        lemma_of_rank_empty(0);
        lemma_of_rank_empty(1);
        lemma_of_rank_empty(2);
        lemma_of_rank_empty(3);
        lemma_of_rank_empty(4);
        assert(s =~= Seq::<User>::empty());
    } else {
        let p = s.drop_last();
        let u = s.last();
        assert(s =~= p.push(u));
        lemma_sorted_keeps_users(p, id);
        lemma_id_count_concat(of_rank(p, 0), of_rank(p, 1), id);
        lemma_id_count_concat(of_rank(p, 0) + of_rank(p, 1), of_rank(p, 2), id);
        lemma_id_count_concat(of_rank(p, 0) + of_rank(p, 1) + of_rank(p, 2), of_rank(p, 3), id);
        lemma_id_count_concat(
            of_rank(p, 0) + of_rank(p, 1) + of_rank(p, 2) + of_rank(p, 3),
            of_rank(p, 4),
            id,
        );
        lemma_of_rank_push(p, u, 0);
        lemma_of_rank_push(p, u, 1);
        lemma_of_rank_push(p, u, 2);
        lemma_of_rank_push(p, u, 3);
        lemma_of_rank_push(p, u, 4);
        lemma_id_count_push(p, u, id);
        lemma_id_count_push(of_rank(p, rank(u.status)), u, id);
    }
}

proof fn lemma_of_rank_ranks(s: Seq<User>, r: int)
    ensures
        forall|i: int| 0 <= i < of_rank(s, r).len() ==> rank(#[trigger] of_rank(s, r)[i].status) == r,
{
    assert forall|i: int| 0 <= i < of_rank(s, r).len() implies rank(
        #[trigger] of_rank(s, r)[i].status,
    ) == r by {
        s.lemma_filter_pred(rank_is(r), i);
    }
}

/// The users of a sorted list come in the order of their statuses.
pub proof fn lemma_sorted_is_ordered(s: Seq<User>)
    ensures
        is_ordered(sorted_by_status(s)),
{
    let b0 = of_rank(s, 0);
    let b1 = of_rank(s, 1);
    let b2 = of_rank(s, 2);
    let b3 = of_rank(s, 3);
    let b4 = of_rank(s, 4);
    lemma_of_rank_ranks(s, 0);
    lemma_of_rank_ranks(s, 1);
    lemma_of_rank_ranks(s, 2);
    lemma_of_rank_ranks(s, 3);
    lemma_of_rank_ranks(s, 4);
    let t = sorted_by_status(s);
    let n0 = b0.len() as int;
    let n1 = n0 + b1.len();
    let n2 = n1 + b2.len();
    let n3 = n2 + b3.len();
    assert forall|i: int| 0 <= i < t.len() implies rank(#[trigger] t[i].status) == (if i < n0 {
        0int
    } else if i < n1 {
        1int
    } else if i < n2 {
        2int
    } else if i < n3 {
        3int
    } else {
        4int
    }) by {
        if i < n0 {
            assert(t[i] == b0[i]);
        } else if i < n1 {
            assert(t[i] == b1[i - n0]);
        } else if i < n2 {
            assert(t[i] == b2[i - n1]);
        } else if i < n3 {
            assert(t[i] == b3[i - n2]);
        } else {
            assert(t[i] == b4[i - n3]);
        }
    }
}

proof fn lemma_of_rank_of_rank(s: Seq<User>, r: int, q: int)
    ensures
        of_rank(of_rank(s, r), q) == if r == q {
            of_rank(s, r)
        } else {
            Seq::<User>::empty()
        },
    decreases s.len(),
{
    if s.len() == 0 {
        lemma_of_rank_empty(r);
        lemma_of_rank_empty(q);
    } else {
        let p = s.drop_last();
        let u = s.last();
        assert(s =~= p.push(u));
        lemma_of_rank_of_rank(p, r, q);
        lemma_of_rank_push(p, u, r);
        if rank(u.status) == r {
            lemma_of_rank_push(of_rank(p, r), u, q);
        }
    }
}

proof fn lemma_of_rank_concat(a: Seq<User>, b: Seq<User>, r: int)
    ensures
        of_rank(a + b, r) == of_rank(a, r) + of_rank(b, r),
{
    Seq::filter_distributes_over_add(a, b, rank_is(r));
}

proof fn lemma_sorted_of_rank(s: Seq<User>, q: int)
    requires
        0 <= q < 5,
    ensures
        of_rank(sorted_by_status(s), q) == of_rank(s, q),
{
    let e = Seq::<User>::empty();
    lemma_of_rank_concat(of_rank(s, 0), of_rank(s, 1), q);
    lemma_of_rank_concat(of_rank(s, 0) + of_rank(s, 1), of_rank(s, 2), q);
    lemma_of_rank_concat(of_rank(s, 0) + of_rank(s, 1) + of_rank(s, 2), of_rank(s, 3), q);
    lemma_of_rank_concat(
        of_rank(s, 0) + of_rank(s, 1) + of_rank(s, 2) + of_rank(s, 3),
        of_rank(s, 4),
        q,
    );
    lemma_of_rank_of_rank(s, 0, q);
    lemma_of_rank_of_rank(s, 1, q);
    lemma_of_rank_of_rank(s, 2, q);
    lemma_of_rank_of_rank(s, 3, q);
    lemma_of_rank_of_rank(s, 4, q);
    let x = of_rank(s, q);
    if q == 0 {
        assert(x + e + e + e + e =~= x);
    } else if q == 1 {
        assert(e + x + e + e + e =~= x);
    } else if q == 2 {
        assert(e + e + x + e + e =~= x);
    } else if q == 3 {
        assert(e + e + e + x + e =~= x);
    } else {
        assert(e + e + e + e + x =~= x);
    }
}

/// Sorting a sorted list changes nothing.
pub proof fn lemma_sort_idempotent(s: Seq<User>)
    ensures
        sorted_by_status(sorted_by_status(s)) == sorted_by_status(s),
{
    lemma_sorted_of_rank(s, 0);
    lemma_sorted_of_rank(s, 1);
    lemma_sorted_of_rank(s, 2);
    lemma_sorted_of_rank(s, 3);
    lemma_sorted_of_rank(s, 4);
}

/// Sorting loses no user.
pub proof fn lemma_sorted_contains(s: Seq<User>, u: User)
    requires
        s.contains(u),
    ensures
        sorted_by_status(s).contains(u),
{
    let i = choose|i: int| 0 <= i < s.len() && s[i] == u;
    let r = rank(u.status);
    s.lemma_filter_contains(rank_is(r), i);
    let b = of_rank(s, r);
    let k = choose|k: int| 0 <= k < b.len() && b[k] == u;
    let b0 = of_rank(s, 0);
    let b1 = of_rank(s, 1);
    let b2 = of_rank(s, 2);
    let b3 = of_rank(s, 3);
    let b4 = of_rank(s, 4);
    let t = sorted_by_status(s);
    if r == 0 {
        assert(t[k] == u);
    } else if r == 1 {
        assert(t[b0.len() + k] == u);
    } else if r == 2 {
        assert(t[b0.len() + b1.len() + k] == u);
    } else if r == 3 {
        assert(t[b0.len() + b1.len() + b2.len() + k] == u);
    } else {
        assert(t[b0.len() + b1.len() + b2.len() + b3.len() + k] == u);
    }
}

/// Sorts `list` by status, keeping users of equal status in their order
/// (as a stable sort by status does).
pub fn sort_by_status(list: &mut Vec<User>)
    ensures
        final(list)@ == sorted_by_status(old(list)@),
        is_ordered(final(list)@),
        final(list)@.len() == old(list)@.len(),
        forall|id: Seq<char>| #[trigger] id_count(final(list)@, id) == id_count(old(list)@, id),
        forall|u: User| old(list)@.contains(u) ==> #[trigger] final(list)@.contains(u),
{
    let mut all: Vec<User> = Vec::new();
    std::mem::swap(list, &mut all);
    let ghost s = all@;
    let mut b0: Vec<User> = Vec::new();
    let mut b1: Vec<User> = Vec::new();
    let mut b2: Vec<User> = Vec::new();
    let mut b3: Vec<User> = Vec::new();
    let mut b4: Vec<User> = Vec::new();
    proof {
        lemma_of_rank_empty(0);
        lemma_of_rank_empty(1);
        lemma_of_rank_empty(2);
        lemma_of_rank_empty(3);
        lemma_of_rank_empty(4);
        assert(s.take(0) =~= Seq::<User>::empty());
    }
    for u in it: all.into_iter()
        invariant
            it.seq() == s,
            b0@ == of_rank(s.take(it.index() as int), 0),
            b1@ == of_rank(s.take(it.index() as int), 1),
            b2@ == of_rank(s.take(it.index() as int), 2),
            b3@ == of_rank(s.take(it.index() as int), 3),
            b4@ == of_rank(s.take(it.index() as int), 4),
    {
        let ghost k = it.index() as int;
        proof {
            assert(s.take(k + 1) =~= s.take(k).push(u));
            lemma_of_rank_push(s.take(k), u, 0);
            lemma_of_rank_push(s.take(k), u, 1);
            lemma_of_rank_push(s.take(k), u, 2);
            lemma_of_rank_push(s.take(k), u, 3);
            lemma_of_rank_push(s.take(k), u, 4);
        }
        let r = u.status.rank();
        if r == 0 {
            b0.push(u);
        } else if r == 1 {
            b1.push(u);
        } else if r == 2 {
            b2.push(u);
        } else if r == 3 {
            b3.push(u);
        } else {
            b4.push(u);
        }
    }
    proof {
        assert(s.take(s.len() as int) =~= s);
    }
    list.append(&mut b0);
    list.append(&mut b1);
    list.append(&mut b2);
    list.append(&mut b3);
    list.append(&mut b4);
    assert(list@ =~= sorted_by_status(s));
    proof {
        lemma_sorted_is_ordered(s);
        assert forall|id: Seq<char>| #[trigger] id_count(list@, id) == id_count(s, id) by {
            lemma_sorted_keeps_users(s, id);
        }
        lemma_sorted_keeps_users(s, Seq::empty());
        assert forall|u: User| s.contains(u) implies #[trigger] list@.contains(u) by {
            lemma_sorted_contains(s, u);
        }
    }
}


/// The index of the first user of `list` with the id `id`.
pub fn position(list: &Vec<User>, id: &String) -> (r: Option<usize>)
    ensures
        r matches Some(i) ==> first_position(list@, id@) == Some(i as int),
        r is None ==> first_position(list@, id@) is None,
{
    let mut i: usize = 0;
    while i < list.len()
        invariant
            i <= list.len(),
            forall|j: int| 0 <= j < i ==> list@[j].id@ != id@,
        decreases list.len() - i,
    {
        if list[i].id == *id {
            proof {
                lemma_first_position_unique(list@, id@, i as int);
            }
            return Some(i);
        }
        i = i + 1;
    }
    proof {
        lemma_no_position(list@, id@);
    }
    None
}

/// Takes the first user with the id `id` out of `list`.
pub fn find_remove(list: &mut Vec<User>, id: &String) -> (r: Option<User>)
    ensures
        match first_position(old(list)@, id@) {
            Some(i) => r == Some(old(list)@[i]) && final(list)@ == old(list)@.remove(i),
            None => r is None && final(list)@ == old(list)@,
        },
        final(list)@ == without_first(old(list)@, id@),
{
    proof {
        lemma_first_position(list@, id@);
    }
    match position(list, id) {
        Some(i) => Some(list.remove(i)),
        None => None,
    }
}

/// Adds `user` to `list` and sorts the list by status.
pub fn push_and_sort(list: &mut Vec<User>, user: User)
    ensures
        final(list)@ == sorted_by_status(old(list)@.push(user)),
{
    list.push(user);
    sort_by_status(list);
}

/// The three friend lists: online, on the website only, offline.
pub type Lists = (Seq<User>, Seq<User>, Seq<User>);

/// How many friends in the lists have the id `id`.
pub open spec fn count_in(l: Lists, id: Seq<char>) -> nat {
    id_count(l.0, id) + id_count(l.1, id) + id_count(l.2, id)
}

/// How many friends the lists hold.
pub open spec fn total(l: Lists) -> nat {
    l.0.len() + l.1.len() + l.2.len()
}

/// No friend is listed twice, in one list or across lists.
pub open spec fn distinct(l: Lists) -> bool {
    forall|id: Seq<char>| #[trigger] count_in(l, id) <= 1
}

/// Some list holds a friend with the id `id`.
pub open spec fn listed(l: Lists, id: Seq<char>) -> bool {
    has_id(l.0, id) || has_id(l.1, id) || has_id(l.2, id)
}

/// The lists after a friend came online or moved (`friend-online`,
/// `friend-location`): a listed online friend is replaced in place (and the
/// list resorted when the status changed); otherwise the friend leaves the
/// offline list, or else the web list, and joins the online list.
pub open spec fn after_location(l: Lists, u: User) -> Lists {
    let id = u.id@;
    match first_position(l.0, id) {
        Some(i) => (
            if l.0[i].status == u.status {
                l.0.update(i, u)
            } else {
                sorted_by_status(l.0.update(i, u))
            },
            l.1,
            l.2,
        ),
        None => if has_id(l.2, id) {
            (sorted_by_status(l.0.push(u)), l.1, without_first(l.2, id))
        } else {
            (sorted_by_status(l.0.push(u)), without_first(l.1, id), l.2)
        },
    }
}

/// The lists after a friend became active on the website (`friend-active`):
/// the friend leaves the first of offline, online and web that lists them,
/// and joins the web list.
pub open spec fn after_active(l: Lists, u: User) -> Lists {
    let id = u.id@;
    if has_id(l.2, id) {
        (l.0, sorted_by_status(l.1.push(u)), without_first(l.2, id))
    } else if has_id(l.0, id) {
        (without_first(l.0, id), sorted_by_status(l.1.push(u)), l.2)
    } else {
        (l.0, sorted_by_status(without_first(l.1, id).push(u)), l.2)
    }
}

/// The user is somewhere in the game: a location other than "offline".
pub open spec fn in_game(u: User) -> bool {
    u.location matches Some(loc) && loc@ != "offline"@
}

/// The user's status is "ask me" or "busy".
pub open spec fn is_reserved(u: User) -> bool {
    u.status == Status::AskMe || u.status == Status::Busy
}

/// The lists after a new friend was added (`friend-add`): in game and
/// reserved while active on the website goes to web, otherwise in game goes
/// online, and anyone else is appended to the offline list.
pub open spec fn after_add(l: Lists, u: User, active: bool) -> Lists {
    if in_game(u) {
        if is_reserved(u) && active {
            (l.0, sorted_by_status(l.1.push(u)), l.2)
        } else {
            (sorted_by_status(l.0.push(u)), l.1, l.2)
        }
    } else {
        (l.0, l.1, l.2.push(u))
    }
}

/// `u` gone offline: offline status and no location.
pub open spec fn gone_offline(u: User) -> User {
    User { status: Status::Offline, location: None, travelingToLocation: None, ..u }
}

/// The lists after a friend went offline (`friend-offline`): the friend
/// leaves the online list, or else the web list, and is appended to the
/// offline list with offline status and no location.
pub open spec fn after_offline(l: Lists, id: Seq<char>) -> Lists {
    match first_position(l.0, id) {
        Some(i) => (l.0.remove(i), l.1, l.2.push(gone_offline(l.0[i]))),
        None => match first_position(l.1, id) {
            Some(i) => (l.0, l.1.remove(i), l.2.push(gone_offline(l.1[i]))),
            None => l,
        },
    }
}

/// The lists after a friend was removed (`friend-delete`): the friend
/// leaves the first of offline, web and online that lists them.
pub open spec fn after_delete(l: Lists, id: Seq<char>) -> Lists {
    if has_id(l.2, id) {
        (l.0, l.1, without_first(l.2, id))
    } else if has_id(l.1, id) {
        (l.0, without_first(l.1, id), l.2)
    } else {
        (without_first(l.0, id), l.1, l.2)
    }
}

proof fn lemma_sorted_push(s: Seq<User>, u: User, x: Seq<char>)
    ensures
        id_count(sorted_by_status(s.push(u)), x) == id_count(s, x) + (if u.id@ == x {
            1nat
        } else {
            0nat
        }),
        sorted_by_status(s.push(u)).len() == s.len() + 1,
{
    lemma_sorted_keeps_users(s.push(u), x);
    lemma_id_count_push(s, u, x);
}

proof fn lemma_not_listed(s: Seq<User>, id: Seq<char>)
    requires
        !has_id(s, id),
    ensures
        id_count(s, id) == 0,
        without_first(s, id) == s,
{
    lemma_id_count_zero(s, id);
}

/// A friend coming online keeps every friend listed at most once, and
/// leaves that friend listed exactly once, in the online list.
pub proof fn lemma_location_keeps_distinct(l: Lists, u: User)
    requires
        distinct(l),
    ensures
        distinct(after_location(l, u)),
        id_count(after_location(l, u).0, u.id@) == 1,
        count_in(after_location(l, u), u.id@) == 1,
{
    let id = u.id@;
    let n = after_location(l, u);
    lemma_first_position(l.0, id);
    assert forall|x: Seq<char>| #[trigger] count_in(n, x) == count_in(l, x) + (if x == id
        && !listed(l, id) {
        1nat
    } else {
        0nat
    }) by {
        lemma_without_first(l.1, id, x);
        lemma_without_first(l.2, id, x);
        lemma_id_count_zero(l.0, id);
        lemma_id_count_zero(l.1, id);
        lemma_id_count_zero(l.2, id);
        match first_position(l.0, id) {
            Some(i) => {
                lemma_id_count_update(l.0, i, u, x);
                lemma_sorted_keeps_users(l.0.update(i, u), x);
            },
            None => {
                lemma_sorted_push(l.0, u, x);
            },
        }
    }
    assert(count_in(l, id) <= 1);
    lemma_id_count_zero(l.0, id);
    lemma_id_count_zero(l.1, id);
    lemma_id_count_zero(l.2, id);
    assert(count_in(n, id) == 1);
    match first_position(l.0, id) {
        Some(i) => {
            lemma_id_count_update(l.0, i, u, id);
            lemma_sorted_keeps_users(l.0.update(i, u), id);
        },
        None => {
            lemma_sorted_push(l.0, u, id);
        },
    }
}

/// A friend coming online leaves as many friends listed as before, plus one
/// when they were not listed at all.
pub proof fn lemma_location_total(l: Lists, u: User)
    ensures
        total(after_location(l, u)) == total(l) + (if listed(l, u.id@) { 0int } else { 1int }),
{
    let id = u.id@;
    lemma_without_first(l.1, id, id);
    lemma_without_first(l.2, id, id);
    match first_position(l.0, id) {
        Some(i) => {
            lemma_first_position(l.0, id);
            lemma_sorted_keeps_users(l.0.update(i, u), id);
        },
        None => {
            lemma_sorted_push(l.0, u, id);
        },
    }
}

/// A friend becoming active on the website keeps every friend listed at
/// most once, and leaves that friend listed exactly once, in the web list.
pub proof fn lemma_active_keeps_distinct(l: Lists, u: User)
    requires
        distinct(l),
    ensures
        distinct(after_active(l, u)),
        id_count(after_active(l, u).1, u.id@) == 1,
        count_in(after_active(l, u), u.id@) == 1,
{
    let id = u.id@;
    let n = after_active(l, u);
    assert forall|x: Seq<char>| #[trigger] count_in(n, x) + (if x == id && listed(l, id) {
        1nat
    } else {
        0nat
    }) == count_in(l, x) + (if x == id { 1nat } else { 0nat }) by {
        lemma_without_first(l.0, id, x);
        lemma_without_first(l.1, id, x);
        lemma_without_first(l.2, id, x);
        lemma_sorted_push(l.1, u, x);
        lemma_sorted_push(without_first(l.1, id), u, x);
    }
    assert(count_in(l, id) <= 1);
    lemma_id_count_zero(l.0, id);
    lemma_id_count_zero(l.1, id);
    lemma_id_count_zero(l.2, id);
    assert(count_in(n, id) == 1);
    lemma_without_first(l.1, id, id);
    lemma_sorted_push(l.1, u, id);
    lemma_sorted_push(without_first(l.1, id), u, id);
}

/// Adding a friend who is not listed yet keeps every friend listed at most
/// once, and leaves the new friend listed exactly once.
pub proof fn lemma_add_keeps_distinct(l: Lists, u: User, active: bool)
    requires
        distinct(l),
        !listed(l, u.id@),
    ensures
        distinct(after_add(l, u, active)),
        count_in(after_add(l, u, active), u.id@) == 1,
        total(after_add(l, u, active)) == total(l) + 1,
{
    let id = u.id@;
    let n = after_add(l, u, active);
    assert forall|x: Seq<char>| #[trigger] count_in(n, x) == count_in(l, x) + (if x == id {
        1nat
    } else {
        0nat
    }) by {
        lemma_sorted_push(l.0, u, x);
        lemma_sorted_push(l.1, u, x);
        lemma_id_count_push(l.2, u, x);
    }
    lemma_not_listed(l.0, id);
    lemma_not_listed(l.1, id);
    lemma_not_listed(l.2, id);
    assert(count_in(n, id) == 1);
    lemma_sorted_push(l.0, u, id);
    lemma_sorted_push(l.1, u, id);
}

/// A friend going offline keeps every friend listed as often as before
/// (it only moves them to the offline list).
pub proof fn lemma_offline_keeps_friends(l: Lists, id: Seq<char>)
    ensures
        forall|x: Seq<char>| #[trigger] count_in(after_offline(l, id), x) == count_in(l, x),
        total(after_offline(l, id)) == total(l),
        distinct(l) ==> distinct(after_offline(l, id)),
        distinct(l) ==> id_count(after_offline(l, id).0, id) == 0 && id_count(
            after_offline(l, id).1,
            id,
        ) == 0,
{
    let n = after_offline(l, id);
    lemma_first_position(l.0, id);
    lemma_first_position(l.1, id);
    assert forall|x: Seq<char>| #[trigger] count_in(n, x) == count_in(l, x) by {
        match first_position(l.0, id) {
            Some(i) => {
                lemma_id_count_remove(l.0, i, x);
                lemma_id_count_push(l.2, gone_offline(l.0[i]), x);
            },
            None => match first_position(l.1, id) {
                Some(i) => {
                    lemma_id_count_remove(l.1, i, x);
                    lemma_id_count_push(l.2, gone_offline(l.1[i]), x);
                },
                None => {},
            },
        }
    }
    if distinct(l) {
        assert(count_in(l, id) <= 1);
        lemma_id_count_zero(l.0, id);
        lemma_id_count_zero(l.1, id);
        match first_position(l.0, id) {
            Some(i) => {
                lemma_id_count_remove(l.0, i, id);
            },
            None => match first_position(l.1, id) {
                Some(i) => {
                    lemma_id_count_remove(l.1, i, id);
                },
                None => {},
            },
        }
    }
}

/// Removing a friend keeps every other friend listed as before, and a
/// friend listed at most once is then listed nowhere.
pub proof fn lemma_delete_removes(l: Lists, id: Seq<char>)
    ensures
        forall|x: Seq<char>| #[trigger] count_in(after_delete(l, id), x) + (if x == id && listed(
            l,
            id,
        ) {
            1nat
        } else {
            0nat
        }) == count_in(l, x),
        total(after_delete(l, id)) + (if listed(l, id) { 1int } else { 0int }) == total(l),
        distinct(l) ==> distinct(after_delete(l, id)) && count_in(after_delete(l, id), id) == 0,
{
    let n = after_delete(l, id);
    assert forall|x: Seq<char>| #[trigger] count_in(n, x) + (if x == id && listed(l, id) {
        1nat
    } else {
        0nat
    }) == count_in(l, x) by {
        lemma_without_first(l.0, id, x);
        lemma_without_first(l.1, id, x);
        lemma_without_first(l.2, id, x);
    }
    lemma_without_first(l.0, id, id);
    lemma_without_first(l.1, id, id);
    lemma_without_first(l.2, id, id);
    if distinct(l) {
        assert(count_in(l, id) <= 1);
        lemma_id_count_zero(l.0, id);
        lemma_id_count_zero(l.1, id);
        lemma_id_count_zero(l.2, id);
        assert(count_in(n, id) == 0);
    }
}

/// The online and web lists come in the order of statuses.
pub open spec fn ordered(l: Lists) -> bool {
    is_ordered(l.0) && is_ordered(l.1)
}

proof fn lemma_remove_ordered(s: Seq<User>, i: int)
    requires
        is_ordered(s),
        0 <= i < s.len(),
    ensures
        is_ordered(s.remove(i)),
{
    let t = s.remove(i);
    assert forall|a: int, b: int| 0 <= a < b < t.len() implies rank(t[a].status) <= rank(
        t[b].status,
    ) by {
        let a2 = if a < i { a } else { a + 1 };
        let b2 = if b < i { b } else { b + 1 };
        assert(t[a] == s[a2]);
        assert(t[b] == s[b2]);
    }
}

proof fn lemma_without_first_ordered(s: Seq<User>, id: Seq<char>)
    requires
        is_ordered(s),
    ensures
        is_ordered(without_first(s, id)),
{
    lemma_first_position(s, id);
    if let Some(i) = first_position(s, id) {
        lemma_remove_ordered(s, i);
    }
}

/// Once ordered by status, the online and web lists stay so when a friend
/// comes online, becomes active or is added: friends are placed by sorting,
/// replaced by one of the same status, or taken out.
pub proof fn lemma_user_events_keep_order(l: Lists, u: User, active: bool)
    requires
        ordered(l),
    ensures
        ordered(after_location(l, u)),
        ordered(after_active(l, u)),
        ordered(after_add(l, u, active)),
{
    lemma_first_position(l.0, u.id@);
    lemma_sorted_is_ordered(l.0.push(u));
    lemma_sorted_is_ordered(l.1.push(u));
    lemma_sorted_is_ordered(without_first(l.1, u.id@).push(u));
    lemma_without_first_ordered(l.0, u.id@);
    lemma_without_first_ordered(l.1, u.id@);
    if let Some(i) = first_position(l.0, u.id@) {
        lemma_sorted_is_ordered(l.0.update(i, u));
        if l.0[i].status == u.status {
            let t = l.0.update(i, u);
            assert forall|a: int, b: int| 0 <= a < b < t.len() implies rank(t[a].status) <= rank(
                t[b].status,
            ) by {
                assert(rank(l.0[a].status) <= rank(l.0[b].status));
            }
        }
    }
}

/// Once ordered by status, the online and web lists stay so when a friend
/// goes offline or is removed: friends are only taken out.
pub proof fn lemma_id_events_keep_order(l: Lists, id: Seq<char>)
    requires
        ordered(l),
    ensures
        ordered(after_offline(l, id)),
        ordered(after_delete(l, id)),
{
    lemma_without_first_ordered(l.0, id);
    lemma_without_first_ordered(l.1, id);
    lemma_first_position(l.0, id);
    lemma_first_position(l.1, id);
    if let Some(i) = first_position(l.0, id) {
        lemma_remove_ordered(l.0, i);
    } else if let Some(i) = first_position(l.1, id) {
        lemma_remove_ordered(l.1, i);
    }
}

/// Where a newly added friend goes: one in game (a location other than
/// "offline") whose status is "ask me" or "busy" and who is active on the
/// website joins the web list; any other friend in game joins the online
/// list; a friend not in game is appended to the offline list. The other
/// lists are left as they were.
pub proof fn lemma_add_placement(l: Lists, u: User, active: bool)
    ensures
        (u.location matches Some(loc) && loc@ != "offline"@) && (u.status == Status::AskMe
            || u.status == Status::Busy) && active ==> id_count(after_add(l, u, active).1, u.id@)
            == id_count(l.1, u.id@) + 1 && after_add(l, u, active).0 == l.0 && after_add(
            l,
            u,
            active,
        ).2 == l.2,
        (u.location matches Some(loc) && loc@ != "offline"@) && !((u.status == Status::AskMe
            || u.status == Status::Busy) && active) ==> id_count(after_add(l, u, active).0, u.id@)
            == id_count(l.0, u.id@) + 1 && after_add(l, u, active).1 == l.1 && after_add(
            l,
            u,
            active,
        ).2 == l.2,
        !(u.location matches Some(loc) && loc@ != "offline"@) ==> after_add(l, u, active).2
            == l.2.push(u) && after_add(l, u, active).0 == l.0 && after_add(l, u, active).1
            == l.1,
{
    lemma_sorted_push(l.0, u, u.id@);
    lemma_sorted_push(l.1, u, u.id@);
}

/// A friend going offline is appended to the offline list, and only then:
/// whatever list they came from, they arrive with offline status and no
/// location; the offline list otherwise stays as it was.
pub proof fn lemma_offline_resets(l: Lists, id: Seq<char>)
    ensures
        after_offline(l, id).2.len() <= l.2.len() + 1,
        after_offline(l, id).2.take(l.2.len() as int) == l.2,
        forall|i: int|
            l.2.len() <= i < after_offline(l, id).2.len() ==> {
                &&& (#[trigger] after_offline(l, id).2[i]).status == Status::Offline
                &&& after_offline(l, id).2[i].location is None
                &&& after_offline(l, id).2[i].travelingToLocation is None
                &&& after_offline(l, id).2[i].id@ == id
            },
        (after_offline(l, id).2.len() == l.2.len() + 1) == (has_id(l.0, id) || has_id(l.1, id)),
{
    lemma_first_position(l.0, id);
    lemma_first_position(l.1, id);
    let n = after_offline(l, id);
    match first_position(l.0, id) {
        Some(i) => {
            assert(n.2.take(l.2.len() as int) =~= l.2);
        },
        None => match first_position(l.1, id) {
            Some(i) => {
                assert(n.2.take(l.2.len() as int) =~= l.2);
            },
            None => {
                assert(n.2.take(l.2.len() as int) =~= l.2);
            },
        },
    }
}

/// Where a friend who came online is heading: the location they travel to
/// and their display name, for a join notification.
pub struct JoinNotice {
    pub location: String,
    pub display_name: String,
}

/// The signed-in user and the three friend lists.
pub struct Users {
    pub myself: Option<User>,
    pub online: Vec<User>,
    pub web: Vec<User>,
    pub offline: Vec<User>,
}

/// Whether `s` is "offline".
fn is_offline_word(s: &String) -> (b: bool)
    ensures
        b == (s@ == "offline"@),
{
    let word = String::from_str("offline");
    *s == word
}

/// Whether the user is in game: a location other than "offline".
pub fn is_in_game(user: &User) -> (b: bool)
    ensures
        b == in_game(*user),
{
    match &user.location {
        Some(loc) => !is_offline_word(loc),
        None => false,
    }
}

/// Whether placing a newly added friend depends on their being active on
/// the website: they are in game with status "ask me" or "busy".
pub fn needs_active_check(user: &User) -> (b: bool)
    ensures
        b == (in_game(*user) && is_reserved(*user)),
{
    is_in_game(user) && (user.status == Status::AskMe || user.status == Status::Busy)
}

impl Users {
    /// The friend lists as sequences: online, web, offline.
    pub open spec fn lists(self) -> Lists {
        (self.online@, self.web@, self.offline@)
    }

    /// No one signed in and no friends.
    pub fn new() -> (r: Self)
        ensures
            r.myself is None,
            r.online@ == Seq::<User>::empty(),
            r.web@ == Seq::<User>::empty(),
            r.offline@ == Seq::<User>::empty(),
    {
        Users { myself: None, online: Vec::new(), web: Vec::new(), offline: Vec::new() }
    }

    /// A friend came online or moved (`friend-online`, `friend-location`);
    /// `user` is the event's user record. Returns where they travel to, if
    /// anywhere, for a join notification.
    pub fn on_friend_location(&mut self, user: User) -> (notice: Option<JoinNotice>)
        ensures
            final(self).lists() == after_location(old(self).lists(), user),
            final(self).myself == old(self).myself,
            notice is Some <==> user.travelingToLocation is Some,
            notice matches Some(n) ==> user.travelingToLocation matches Some(t) && n.location@
                == t@ && n.display_name@ == user.displayName@,
            distinct(old(self).lists()) ==> distinct(final(self).lists()),
            ordered(old(self).lists()) ==> ordered(final(self).lists()),
            final(self).online@.contains(user),
            distinct(old(self).lists()) ==> id_count(final(self).online@, user.id@) == 1
                && id_count(final(self).web@, user.id@) == 0 && id_count(
                final(self).offline@,
                user.id@,
            ) == 0,
    {
        let ghost l = self.lists();
        let notice = match &user.travelingToLocation {
            Some(to) => Some(JoinNotice { location: to.clone(), display_name: user.displayName.clone() }),
            None => None,
        };
        proof {
            lemma_first_position(l.0, user.id@);
        }
        match position(&self.online, &user.id) {
            Some(i) => {
                let need_to_be_sorted = self.online[i].status != user.status;
                self.online.set(i, user);
                if need_to_be_sorted {
                    sort_by_status(&mut self.online);
                }
            },
            None => {
                let id = user.id.clone();
                if find_remove(&mut self.offline, &id).is_none() {
                    find_remove(&mut self.web, &id);
                }
                push_and_sort(&mut self.online, user);
            },
        }
        proof {
            if distinct(l) {
                lemma_location_keeps_distinct(l, user);
            }
            if ordered(l) {
                lemma_user_events_keep_order(l, user, false);
            }
            lemma_first_position(l.0, user.id@);
            match first_position(l.0, user.id@) {
                Some(i) => {
                    assert(l.0.update(i, user)[i] == user);
                    lemma_sorted_contains(l.0.update(i, user), user);
                },
                None => {
                    assert(l.0.push(user)[l.0.len() as int] == user);
                    lemma_sorted_contains(l.0.push(user), user);
                },
            }
        }
        notice
    }

    /// A friend became active on the website (`friend-active`).
    pub fn on_friend_active(&mut self, user: User)
        ensures
            final(self).lists() == after_active(old(self).lists(), user),
            final(self).myself == old(self).myself,
            distinct(old(self).lists()) ==> distinct(final(self).lists()),
            ordered(old(self).lists()) ==> ordered(final(self).lists()),
            final(self).web@.contains(user),
            distinct(old(self).lists()) ==> id_count(final(self).web@, user.id@) == 1
                && id_count(final(self).online@, user.id@) == 0 && id_count(
                final(self).offline@,
                user.id@,
            ) == 0,
    {
        let ghost l = self.lists();
        let id = user.id.clone();
        if find_remove(&mut self.offline, &id).is_none() {
            if find_remove(&mut self.online, &id).is_none() {
                find_remove(&mut self.web, &id);
            }
        }
        push_and_sort(&mut self.web, user);
        proof {
            if distinct(l) {
                lemma_active_keeps_distinct(l, user);
            }
            if ordered(l) {
                lemma_user_events_keep_order(l, user, false);
            }
            let w = without_first(l.1, user.id@);
            assert(l.1.push(user)[l.1.len() as int] == user);
            assert(w.push(user)[w.len() as int] == user);
            lemma_sorted_contains(l.1.push(user), user);
            lemma_sorted_contains(w.push(user), user);
        }
    }

    /// A friend was added (`friend-add`); `user` is their record and
    /// `active` whether they are active on the website, which matters only
    /// where `needs_active_check` holds.
    pub fn on_friend_add(&mut self, user: User, active: bool)
        ensures
            final(self).lists() == after_add(old(self).lists(), user, active),
            final(self).myself == old(self).myself,
            distinct(old(self).lists()) && !listed(old(self).lists(), user.id@) ==> distinct(
                final(self).lists(),
            ),
            ordered(old(self).lists()) ==> ordered(final(self).lists()),
            (user.location matches Some(loc) && loc@ != "offline"@) && (user.status
                == Status::AskMe || user.status == Status::Busy) && active ==> id_count(
                final(self).web@,
                user.id@,
            ) == id_count(old(self).web@, user.id@) + 1 && final(self).online == old(self).online
                && final(self).offline == old(self).offline,
            (user.location matches Some(loc) && loc@ != "offline"@) && !((user.status
                == Status::AskMe || user.status == Status::Busy) && active) ==> id_count(
                final(self).online@,
                user.id@,
            ) == id_count(old(self).online@, user.id@) + 1 && final(self).web == old(self).web
                && final(self).offline == old(self).offline,
            !(user.location matches Some(loc) && loc@ != "offline"@) ==> final(self).offline@
                == old(self).offline@.push(user) && final(self).online == old(self).online
                && final(self).web == old(self).web,
    {
        let ghost l = self.lists();
        if is_in_game(&user) {
            if (user.status == Status::AskMe || user.status == Status::Busy) && active {
                push_and_sort(&mut self.web, user);
            } else {
                push_and_sort(&mut self.online, user);
            }
        } else {
            self.offline.push(user);
        }
        proof {
            if distinct(l) && !listed(l, user.id@) {
                lemma_add_keeps_distinct(l, user, active);
            }
            if ordered(l) {
                lemma_user_events_keep_order(l, user, active);
            }
            lemma_add_placement(l, user, active);
        }
    }

    /// A friend went offline (`friend-offline`).
    pub fn on_friend_offline(&mut self, id: &String)
        ensures
            final(self).lists() == after_offline(old(self).lists(), id@),
            final(self).myself == old(self).myself,
            distinct(old(self).lists()) ==> distinct(final(self).lists()),
            ordered(old(self).lists()) ==> ordered(final(self).lists()),
            distinct(old(self).lists()) ==> id_count(final(self).online@, id@) == 0 && id_count(
                final(self).web@,
                id@,
            ) == 0,
            final(self).offline@.len() <= old(self).offline@.len() + 1,
            final(self).offline@.take(old(self).offline@.len() as int) == old(self).offline@,
            forall|i: int|
                old(self).offline@.len() <= i < final(self).offline@.len() ==> {
                    &&& (#[trigger] final(self).offline@[i]).status == Status::Offline
                    &&& final(self).offline@[i].location is None
                    &&& final(self).offline@[i].travelingToLocation is None
                    &&& final(self).offline@[i].id@ == id@
                },
            (final(self).offline@.len() == old(self).offline@.len() + 1) == (has_id(
                old(self).online@,
                id@,
            ) || has_id(old(self).web@, id@)),
    {
        let ghost l = self.lists();
        let found = match find_remove(&mut self.online, id) {
            Some(friend) => Some(friend),
            None => find_remove(&mut self.web, id),
        };
        if let Some(mut friend) = found {
            friend.status = Status::default();
            friend.location = None;
            friend.travelingToLocation = None;
            self.offline.push(friend);
        }
        proof {
            lemma_offline_keeps_friends(l, id@);
            lemma_offline_resets(l, id@);
            if ordered(l) {
                lemma_id_events_keep_order(l, id@);
            }
        }
    }

    /// A friend was removed (`friend-delete`).
    pub fn on_friend_delete(&mut self, id: &String)
        ensures
            final(self).lists() == after_delete(old(self).lists(), id@),
            final(self).myself == old(self).myself,
            distinct(old(self).lists()) ==> distinct(final(self).lists()),
            ordered(old(self).lists()) ==> ordered(final(self).lists()),
            distinct(old(self).lists()) ==> id_count(final(self).online@, id@) == 0 && id_count(
                final(self).web@,
                id@,
            ) == 0 && id_count(final(self).offline@, id@) == 0,
            forall|x: Seq<char>|
                x != id@ ==> #[trigger] id_count(final(self).online@, x) + id_count(
                    final(self).web@,
                    x,
                ) + id_count(final(self).offline@, x) == id_count(old(self).online@, x)
                    + id_count(old(self).web@, x) + id_count(old(self).offline@, x),
    {
        let ghost l = self.lists();
        if find_remove(&mut self.offline, id).is_none() {
            if find_remove(&mut self.web, id).is_none() {
                find_remove(&mut self.online, id);
            }
        }
        proof {
            lemma_delete_removes(l, id@);
            assert forall|x: Seq<char>| x != id@ implies #[trigger] id_count(self.online@, x)
                + id_count(self.web@, x) + id_count(self.offline@, x) == id_count(l.0, x)
                + id_count(l.1, x) + id_count(l.2, x) by {
                assert(count_in(after_delete(l, id@), x) == count_in(l, x));
            }
            if ordered(l) {
                lemma_id_events_keep_order(l, id@);
            }
        }
    }

    /// The signed-in user moved (`user-location`).
    pub fn on_user_location(&mut self, user: User)
        ensures
            final(self).myself == Some(user),
            final(self).lists() == old(self).lists(),
    {
        self.myself = Some(user);
    }
}

} // verus!
