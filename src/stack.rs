//! The window stack: a persisted last-in, first-out list of the addresses of
//! minimized windows.
//!
//! A `Stack` holds what its file holds, as a list of lines, or nothing when
//! the file does not exist. The program reads the file into a `Stack` with
//! `load`, applies one operation and writes `contents` back. No locking is
//! done: a writer that races another one may lose its update.
use vstd::prelude::*;

use crate::compositor::{views, Error, ErrorKind};
use crate::text::{trim, trimmed};

verus! {

/// `l` without one trailing carriage return.
pub open spec fn strip_cr(l: Seq<char>) -> Seq<char> {
    if l.len() > 0 && l.last() == '\r' {
        l.drop_last()
    } else {
        l
    }
}

/// Index of the first line feed in `s`; the length when there is none.
pub open spec fn first_newline(s: Seq<char>) -> int
    decreases s.len(),
{
    if s.len() == 0 {
        0
    } else if s[0] == '\n' {
        0
    } else {
        1 + first_newline(s.drop_first())
    }
}

/// The lines of a file: split at each line feed, each without a trailing
/// carriage return, and no empty line after a final line feed.
pub open spec fn lines_of(s: Seq<char>) -> Seq<Seq<char>>
    decreases s.len(),
{
    if s.len() == 0 {
        seq![]
    } else {
        let k = first_newline(s);
        if k >= s.len() {
            seq![strip_cr(s)]
        } else if k < 0 {
            seq![]
        } else {
            seq![strip_cr(s.subrange(0, k))] + lines_of(s.subrange(k + 1, s.len() as int))
        }
    }
}

/// A file that holds each of `lines` followed by a line feed.
pub open spec fn render(lines: Seq<Seq<char>>) -> Seq<char>
    decreases lines.len(),
{
    if lines.len() == 0 {
        seq![]
    } else {
        render(lines.drop_last()) + lines.last() + seq!['\n']
    }
}

proof fn lemma_first_newline(s: Seq<char>, k: int)
    requires
        0 <= k <= s.len(),
        forall|j: int| 0 <= j < k ==> #[trigger] s[j] != '\n',
        k == s.len() || s[k] == '\n',
    ensures
        first_newline(s) == k,
    decreases k,
{
    if k > 0 {
        let rest = s.drop_first();
        assert forall|j: int| 0 <= j < k - 1 implies #[trigger] rest[j] != '\n' by {
            assert(rest[j] == s[j + 1]);
        }
        lemma_first_newline(rest, k - 1);
    }
}

fn strip_carriage_return(l: &str) -> (r: String)
    ensures
        r@ == strip_cr(l@),
{
    let n = l.unicode_len();
    if n > 0 && l.get_char(n - 1) == '\r' {
        String::from_str(l.substring_char(0, n - 1))
    } else {
        String::from_str(l)
    }
}

/// The lines of the file contents `s`.
pub fn parse_lines(s: &str) -> (r: Vec<String>)
    ensures
        views(r@) == lines_of(s@),
{
    let n = s.unicode_len();
    let mut out: Vec<String> = Vec::new();
    let mut start: usize = 0;
    let mut i: usize = 0;
    assert(s@.subrange(0, n as int) =~= s@);
    while i < n
        invariant
            n == s@.len(),
            0 <= start <= i <= n,
            forall|j: int| start <= j < i ==> #[trigger] s@[j] != '\n',
            lines_of(s@) == views(out@) + lines_of(s@.subrange(start as int, n as int)),
        decreases n - i,
    {
        if s.get_char(i) == '\n' {
            let ghost rest = s@.subrange(start as int, n as int);
            proof {
                assert forall|j: int| 0 <= j < i - start implies #[trigger] rest[j] != '\n' by {
                    assert(rest[j] == s@[j + start]);
                }
                assert(rest[i - start] == s@[i as int]);
                lemma_first_newline(rest, i - start);
                assert(rest.subrange(0, i - start) =~= s@.subrange(start as int, i as int));
                assert(rest.subrange(i - start + 1, rest.len() as int) =~= s@.subrange(
                    i + 1,
                    n as int,
                ));
            }
            let line = strip_carriage_return(s.substring_char(start, i));
            let ghost before = out@;
            out.push(line);
            proof {
                assert(views(out@) =~= views(before).push(line@));
                assert(views(before) + lines_of(rest) =~= views(out@) + lines_of(
                    s@.subrange(i + 1, n as int),
                ));
            }
            start = i + 1;
        }
        i = i + 1;
    }
    if start < n {
        let ghost rest = s@.subrange(start as int, n as int);
        proof {
            assert forall|j: int| 0 <= j < rest.len() implies #[trigger] rest[j] != '\n' by {
                assert(rest[j] == s@[j + start]);
            }
            lemma_first_newline(rest, rest.len() as int);
        }
        let line = strip_carriage_return(s.substring_char(start, n));
        let ghost before = out@;
        out.push(line);
        proof {
            assert(views(out@) =~= views(before).push(line@));
            assert(views(before) + lines_of(rest) =~= views(out@));
        }
    } else {
        proof {
            assert(views(out@) + lines_of(s@.subrange(start as int, n as int)) =~= views(out@));
        }
    }
    out
}

/// File contents that hold each of `lines` followed by a line feed.
pub fn render_lines(lines: &Vec<String>) -> (r: String)
    ensures
        r@ == render(views(lines@)),
{
    let mut r = String::new();
    let mut i: usize = 0;
    while i < lines.len()
        invariant
            0 <= i <= lines@.len(),
            r@ == render(views(lines@.subrange(0, i as int))),
        decreases lines@.len() - i,
    {
        proof {
            reveal_strlit("\n");
        }
        r.append(lines[i].as_str());
        r.append("\n");
        proof {
            let next = views(lines@.subrange(0, i + 1));
            assert(next.drop_last() =~= views(lines@.subrange(0, i as int)));
            assert(next.last() == lines@[i as int]@);
        }
        i = i + 1;
    }
    assert(lines@.subrange(0, i as int) =~= lines@);
    r
}

/// What a stack holds: its lines, or nothing when its file does not exist.
pub type Store = Option<Seq<Seq<char>>>;

/// The entries of a store; none when its file does not exist.
pub open spec fn entries(s: Store) -> Seq<Seq<char>> {
    match s {
        Some(e) => e,
        None => seq![],
    }
}

/// The store after pushing `address`: the file exists and ends with it.
pub open spec fn pushed(s: Store, address: Seq<char>) -> Store {
    Some(entries(s).push(address))
}

/// The store after a pop, and the popped entry: the last entry leaves; an
/// empty or missing store stays as it is and yields nothing.
pub open spec fn popped(s: Store) -> (Store, Option<Seq<char>>) {
    match s {
        Some(e) => if e.len() > 0 {
            (Some(e.drop_last()), Some(e.last()))
        } else {
            (s, None)
        },
        None => (s, None),
    }
}

/// The store after removing `address`: every entry that equals it once
/// trimmed leaves, the others keep their order; a missing store stays missing.
pub open spec fn removed(s: Store, address: Seq<char>) -> Store {
    match s {
        Some(e) => Some(e.filter(|l: Seq<char>| trimmed(l) != address)),
        None => None,
    }
}

/// `/tmp/hypr-minimizer-stack-<user>`
pub open spec fn default_path(user: Seq<char>) -> Seq<char> {
    "/tmp/hypr-minimizer-stack-"@ + user
}

/// `Could not find the USER environment variable.`
pub open spec fn user_missing_message() -> Seq<char> {
    "Could not find the USER environment variable."@
}

/// `The USER environment variable was empty.`
pub open spec fn user_empty_message() -> Seq<char> {
    "The USER environment variable was empty."@
}

/// The stack of minimized windows, at the path of its file.
#[derive(Clone, Debug)]
pub struct Stack {
    path: String,
    lines: Option<Vec<String>>,
}

impl View for Stack {
    type V = Store;

    closed spec fn view(&self) -> Store {
        match self.lines {
            Some(v) => Some(views(v@)),
            None => None,
        }
    }
}

impl Stack {
    /// Where the stack's file lives.
    pub closed spec fn location(&self) -> Seq<char> {
        self.path@
    }

    /// A stack at `path` whose file does not exist yet.
    pub fn new(path: &str) -> (r: Stack)
        ensures
            r.location() == path@,
            r@ == None::<Seq<Seq<char>>>,
    {
        Stack { path: String::from_str(path), lines: None }
    }

    /// The stack at `path` whose file holds `contents`, or does not exist
    /// when `contents` is `None`.
    pub fn load(path: &str, contents: Option<&str>) -> (r: Stack)
        ensures
            r.location() == path@,
            r@ == match contents {
                Some(c) => Some(lines_of(c@)),
                None => None,
            },
    {
        let lines = match contents {
            Some(c) => Some(parse_lines(c)),
            None => None,
        };
        Stack { path: String::from_str(path), lines }
    }

    /// The stack at the invoking user's default path, given the value of the
    /// `USER` environment variable; an error when it is unset or empty.
    pub fn at_default_path(user: Option<&str>) -> (r: Result<Stack, Error>)
        ensures
            match user {
                None => r is Err && r->Err_0.kind == ErrorKind::Environment && views(
                    r->Err_0.messages@,
                ) == seq![user_missing_message()],
                Some(u) => if u@.len() == 0 {
                    r is Err && r->Err_0.kind == ErrorKind::Environment && views(
                        r->Err_0.messages@,
                    ) == seq![user_empty_message()]
                } else {
                    r is Ok && r->Ok_0.location() == default_path(u@) && r->Ok_0@ == None::<
                        Seq<Seq<char>>,
                    >
                },
            },
    {
        match user {
            None => Err(
                Error::new(
                    ErrorKind::Environment,
                    String::from_str("Could not find the USER environment variable."),
                ),
            ),
            Some(u) => {
                if u.unicode_len() == 0 {
                    Err(
                        Error::new(
                            ErrorKind::Environment,
                            String::from_str("The USER environment variable was empty."),
                        ),
                    )
                } else {
                    let mut path = String::from_str("/tmp/hypr-minimizer-stack-");
                    path.append(u);
                    Ok(Stack { path, lines: None })
                }
            },
        }
    }

    /// The path of the stack's file.
    pub fn path(&self) -> (r: &str)
        ensures
            r@ == self.location(),
    {
        self.path.as_str()
    }

    /// Whether the stack's file exists.
    pub fn has_file(&self) -> (r: bool)
        ensures
            r == self@ is Some,
    {
        self.lines.is_some()
    }

    /// The entries, bottom first.
    pub fn entries(&self) -> (r: Vec<String>)
        ensures
            views(r@) == entries(self@),
    {
        match &self.lines {
            Some(v) => v.clone(),
            None => Vec::new(),
        }
    }

    /// What the stack's file must hold; `None` when it does not exist.
    pub fn contents(&self) -> (r: Option<String>)
        ensures
            match self@ {
                Some(e) => r is Some && r->Some_0@ == render(e),
                None => r is None,
            },
    {
        match &self.lines {
            Some(v) => Some(render_lines(v)),
            None => None,
        }
    }

    /// Pushes `address` on top; creates the file when it is missing.
    pub fn push(&mut self, address: &str)
        ensures
            final(self)@ == pushed(old(self)@, address@),
            final(self).location() == old(self).location(),
    {
        let mut v = match self.lines.take() {
            Some(v) => v,
            None => Vec::new(),
        };
        let ghost before = v@;
        v.push(String::from_str(address));
        proof {
            assert(views(v@) =~= views(before).push(address@));
        }
        self.lines = Some(v);
    }

    /// Removes and returns the top entry; `None`, with nothing changed, when
    /// the stack is empty or its file is missing.
    pub fn pop(&mut self) -> (r: Option<String>)
        ensures
            final(self)@ == popped(old(self)@).0,
            match popped(old(self)@).1 {
                Some(a) => r is Some && r->Some_0@ == a,
                None => r is None,
            },
            final(self).location() == old(self).location(),
    {
        match self.lines.take() {
            None => None,
            Some(mut v) => {
                let ghost before = v@;
                let r = v.pop();
                proof {
                    if before.len() > 0 {
                        assert(views(v@) =~= views(before).drop_last());
                    }
                }
                self.lines = Some(v);
                r
            },
        }
    }

    /// Removes every entry that equals `address` once trimmed; nothing
    /// happens when the file is missing.
    pub fn remove(&mut self, address: &str)
        ensures
            final(self)@ == removed(old(self)@, address@),
            final(self).location() == old(self).location(),
    {
        match self.lines.take() {
            None => {},
            Some(v) => {
                let ghost pred = |l: Seq<char>| trimmed(l) != address@;
                let key = String::from_str(address);
                let mut kept: Vec<String> = Vec::new();
                let mut i: usize = 0;
                while i < v.len()
                    invariant
                        0 <= i <= v@.len(),
                        key@ == address@,
                        pred == (|l: Seq<char>| trimmed(l) != address@),
                        views(kept@) == views(v@).subrange(0, i as int).filter(pred),
                    decreases v@.len() - i,
                {
                    let t = trim(v[i].as_str());
                    let ghost before = kept@;
                    proof {
                        let s = views(v@).subrange(0, i + 1);
                        assert(s.drop_last() =~= views(v@).subrange(0, i as int));
                        assert(s.last() == v@[i as int]@);
                        reveal(Seq::filter);
                        assert(s.filter(pred) == if pred(s.last()) {
                            s.drop_last().filter(pred).push(s.last())
                        } else {
                            s.drop_last().filter(pred)
                        });
                    }
                    if !t.eq(&key) {
                        kept.push(v[i].clone());
                        proof {
                            assert(views(kept@) =~= views(before).push(v@[i as int]@));
                        }
                    } else {
                        proof {
                            assert(views(kept@) =~= views(before));
                        }
                    }
                    i = i + 1;
                }
                proof {
                    assert(views(v@).subrange(0, i as int) =~= views(v@));
                }
                self.lines = Some(kept);
            },
        }
    }
}

/// The store after pushing each of `xs` in order.
pub open spec fn pushed_all(s: Store, xs: Seq<Seq<char>>) -> Store
    decreases xs.len(),
{
    if xs.len() == 0 {
        s
    } else {
        pushed(pushed_all(s, xs.drop_last()), xs.last())
    }
}

/// The store after `n` pops, and what each pop returned, in order.
pub open spec fn popped_n(s: Store, n: nat) -> (Store, Seq<Option<Seq<char>>>)
    decreases n,
{
    if n == 0 {
        (s, seq![])
    } else {
        let (t, got) = popped_n(s, (n - 1) as nat);
        (popped(t).0, got.push(popped(t).1))
    }
}

proof fn lemma_pushed_all_entries(s: Store, xs: Seq<Seq<char>>)
    ensures
        xs.len() > 0 ==> pushed_all(s, xs) == Some(entries(s) + xs),
    decreases xs.len(),
{
    if xs.len() > 0 {
        lemma_pushed_all_entries(s, xs.drop_last());
        if xs.len() > 1 {
            assert(entries(s) + xs =~= (entries(s) + xs.drop_last()).push(xs.last()));
        } else {
            assert(entries(s) + xs =~= entries(s).push(xs.last()));
        }
    }
}

proof fn lemma_pop_suffix(e: Seq<Seq<char>>, xs: Seq<Seq<char>>, n: nat)
    requires
        n <= xs.len(),
        xs.len() > 0,
    ensures
        popped_n(Some(e + xs), n).0 == Some(e + xs.subrange(0, xs.len() - n)),
        popped_n(Some(e + xs), n).1 == xs.subrange(xs.len() - n, xs.len() as int).reverse().map_values(
            |x: Seq<char>| Some(x),
        ),
    decreases n,
{
    if n > 0 {
        lemma_pop_suffix(e, xs, (n - 1) as nat);
        let t = Some(e + xs.subrange(0, xs.len() - (n - 1)));
        let rest = e + xs.subrange(0, xs.len() - (n - 1));
        assert(rest.last() == xs[xs.len() - n]);
        assert(rest.drop_last() =~= e + xs.subrange(0, xs.len() - n));
        assert(xs.subrange(xs.len() - n, xs.len() as int).reverse().map_values(
            |x: Seq<char>| Some(x),
        ) =~= xs.subrange(xs.len() - (n - 1), xs.len() as int).reverse().map_values(
            |x: Seq<char>| Some(x),
        ).push(Some(xs[xs.len() - n])));
    } else {
        assert(xs.subrange(0, xs.len() as int) =~= xs);
        assert(xs.subrange(xs.len() as int, xs.len() as int).reverse().map_values(
            |x: Seq<char>| Some(x),
        ) =~= seq![]);
    }
}

/// After pushing the addresses `xs` in order onto any stack, as many pops
/// return them in the reverse order and leave the stack's earlier entries.
pub proof fn lemma_pops_reverse_pushes(s: Store, xs: Seq<Seq<char>>)
    ensures
        popped_n(pushed_all(s, xs), xs.len()).1 == xs.reverse().map_values(
            |x: Seq<char>| Some(x),
        ),
        entries(popped_n(pushed_all(s, xs), xs.len()).0) == entries(s),
{
    if xs.len() == 0 {
        assert(xs.reverse().map_values(|x: Seq<char>| Some(x)) =~= seq![]);
    } else {
        lemma_pushed_all_entries(s, xs);
        lemma_pop_suffix(entries(s), xs, xs.len());
        assert(xs.subrange(0, xs.len() as int) =~= xs);
        assert(entries(s) + xs.subrange(0, 0) =~= entries(s));
    }
}

/// Removing an address leaves no entry equal to it, keeps every entry that
/// does not equal it once trimmed, and keeps their relative order.
pub proof fn lemma_remove_drops_all(s: Store, address: Seq<char>)
    requires
        trimmed(address) == address,
    ensures
        forall|i: int|
            0 <= i < entries(removed(s, address)).len() ==> #[trigger] entries(
                removed(s, address),
            )[i] != address,
        entries(removed(s, address)) == entries(s).filter(|l: Seq<char>| trimmed(l) != address),
        forall|l: Seq<char>|
            trimmed(l) != address ==> #[trigger] entries(removed(s, address)).to_multiset().count(
                l,
            ) == entries(s).to_multiset().count(l),
{
    let pred = |l: Seq<char>| trimmed(l) != address;
    let e = entries(s);
    let r = e.filter(pred);
    assert(entries(removed(s, address)) == r);
    assert forall|i: int| 0 <= i < r.len() implies #[trigger] r[i] != address by {
        broadcast use vstd::seq_lib::group_filter_ensures;

        assert(pred(r[i]));
    }
    assert forall|l: Seq<char>| trimmed(l) != address implies #[trigger] r.to_multiset().count(l)
        == e.to_multiset().count(l) by {
        lemma_filter_keeps_count(e, pred, l);
    }
}

proof fn lemma_filter_keeps_count(e: Seq<Seq<char>>, pred: spec_fn(Seq<char>) -> bool, l: Seq<char>)
    requires
        pred(l),
    ensures
        e.filter(pred).to_multiset().count(l) == e.to_multiset().count(l),
    decreases e.len(),
{
    if e.len() > 0 {
        let init = e.drop_last();
        lemma_filter_keeps_count(init, pred, l);
        assert(e =~= init.push(e.last()));
        init.to_multiset_ensures();
        let f = init.filter(pred);
        f.to_multiset_ensures();
        reveal(Seq::filter);
        assert(e.drop_last() == init);
        assert(init.push(e.last()).to_multiset() =~= init.to_multiset().insert(e.last()));
        if pred(e.last()) {
            assert(e.filter(pred) == f.push(e.last()));
            assert(f.push(e.last()).to_multiset() =~= f.to_multiset().insert(e.last()));
        } else {
            assert(e.filter(pred) == f);
        }
    } else {
        reveal(Seq::filter);
        assert(e.filter(pred) == e);
    }
}

/// Popping an empty or missing stack returns nothing and changes nothing,
/// however often it is done.
pub proof fn lemma_pop_empty(s: Store, n: nat)
    requires
        entries(s).len() == 0,
    ensures
        popped_n(s, n).0 == s,
        popped_n(s, n).1 == Seq::new(n, |i: int| None::<Seq<char>>),
    decreases n,
{
    if n > 0 {
        lemma_pop_empty(s, (n - 1) as nat);
        assert(Seq::new(n, |i: int| None::<Seq<char>>) =~= Seq::new(
            (n - 1) as nat,
            |i: int| None::<Seq<char>>,
        ).push(None));
    } else {
        assert(Seq::new(0, |i: int| None::<Seq<char>>) =~= seq![]);
    }
}

/// Whether `l` can stand as one line of the stack file: it holds no line feed
/// and does not end with a carriage return.
pub open spec fn is_line(l: Seq<char>) -> bool {
    &&& forall|i: int| 0 <= i < l.len() ==> #[trigger] l[i] != '\n'
    &&& !(l.len() > 0 && l.last() == '\r')
}

proof fn lemma_render_front(l: Seq<char>, ls: Seq<Seq<char>>)
    ensures
        render(seq![l] + ls) == l + seq!['\n'] + render(ls),
    decreases ls.len(),
{
    if ls.len() == 0 {
        assert(seq![l] + ls =~= seq![l]);
        assert(seq![l].drop_last() =~= Seq::<Seq<char>>::empty());
        assert(l + seq!['\n'] + render(ls) =~= render(Seq::<Seq<char>>::empty()) + l + seq!['\n']);
    } else {
        lemma_render_front(l, ls.drop_last());
        assert((seq![l] + ls).drop_last() =~= seq![l] + ls.drop_last());
        assert((seq![l] + ls).last() == ls.last());
        assert(l + seq!['\n'] + render(ls.drop_last()) + ls.last() + seq!['\n'] =~= l + seq!['\n']
            + render(ls));
    }
}

proof fn lemma_lines_front(l: Seq<char>, t: Seq<char>)
    requires
        is_line(l),
    ensures
        lines_of(l + seq!['\n'] + t) == seq![l] + lines_of(t),
{
    let s = l + seq!['\n'] + t;
    assert forall|j: int| 0 <= j < l.len() implies #[trigger] s[j] != '\n' by {
        assert(s[j] == l[j]);
    }
    assert(s[l.len() as int] == '\n');
    lemma_first_newline(s, l.len() as int);
    assert(s.subrange(0, l.len() as int) =~= l);
    assert(s.subrange(l.len() as int + 1, s.len() as int) =~= t);
}

proof fn lemma_lines_of_render(ls: Seq<Seq<char>>)
    requires
        forall|i: int| 0 <= i < ls.len() ==> is_line(#[trigger] ls[i]),
    ensures
        lines_of(render(ls)) == ls,
    decreases ls.len(),
{
    if ls.len() == 0 {
        assert(lines_of(render(ls)) =~= ls);
    } else {
        let rest = ls.drop_first();
        assert(ls =~= seq![ls[0]] + rest);
        assert forall|i: int| 0 <= i < rest.len() implies is_line(#[trigger] rest[i]) by {
            assert(rest[i] == ls[i + 1]);
        }
        lemma_lines_of_render(rest);
        lemma_render_front(ls[0], rest);
        lemma_lines_front(ls[0], render(rest));
    }
}

/// A stack written out by `contents` and read back by `load` holds the same
/// entries, provided each entry can stand as one line.
pub proof fn lemma_contents_round_trip(s: Store)
    requires
        forall|i: int| 0 <= i < entries(s).len() ==> is_line(#[trigger] entries(s)[i]),
    ensures
        match s {
            Some(e) => lines_of(render(e)) == e,
            None => true,
        },
{
    if let Some(e) = s {
        assert(entries(s) == e);
        lemma_lines_of_render(e);
    }
}

} // verus!
