use crate::handler::Handler;
use crate::message::Request;
use crate::message::Response;
use crate::method::Method;
use vstd::prelude::*;

verus! {

/// The mathematical content of a route table: one pair per entry, the URI
/// and its handlers, both in registration order.
pub type RoutesView<H> = Seq<(Seq<char>, Seq<Handler<H>>)>;

/// Index of the first entry whose URI equals `uri`, or -1 when none does.
pub open spec fn entry_index<H>(rs: RoutesView<H>, uri: Seq<char>) -> int
    decreases rs.len(),
{
    if rs.len() == 0 {
        -1
    } else if rs[0].0 == uri {
        0
    } else {
        let rest = entry_index(rs.drop_first(), uri);
        if rest == -1 {
            -1
        } else {
            rest + 1
        }
    }
}

/// Whether the table has an entry for `uri`.
pub open spec fn has_uri<H>(rs: RoutesView<H>, uri: Seq<char>) -> bool {
    entry_index(rs, uri) != -1
}

/// The handler list of the first entry for `uri`.
pub open spec fn handlers_for<H>(rs: RoutesView<H>, uri: Seq<char>) -> Seq<Handler<H>> {
    rs[entry_index(rs, uri)].1
}

/// Index of the first handler in `hs` registered for method `m`, or -1
/// when none is: dispatch scans in registration order and the first match
/// wins, so a second handler under an already-taken method is unreachable.
pub open spec fn first_match<H>(hs: Seq<Handler<H>>, m: Method) -> int
    decreases hs.len(),
{
    if hs.len() == 0 {
        -1
    } else if hs[0].method == m {
        0
    } else {
        let rest = first_match(hs.drop_first(), m);
        if rest == -1 {
            -1
        } else {
            rest + 1
        }
    }
}

/// Well-formedness: no two entries share a URI. Entry creation goes through
/// a find-or-insert step, which keeps this.
pub open spec fn routes_wf<H>(rs: RoutesView<H>) -> bool {
    forall|i: int, j: int| 0 <= i < j < rs.len() ==> rs[i].0 != rs[j].0
}

/// The table after appending a handler for (`uri`, `m`) to `uri`'s entry.
pub open spec fn register_model<H>(rs: RoutesView<H>, uri: Seq<char>, m: Method, h: H) -> RoutesView<H>
    recommends
        has_uri(rs, uri),
{
    let i = entry_index(rs, uri);
    rs.update(i, (rs[i].0, rs[i].1.push(Handler { method: m, handler: h })))
}

/// What a route lookup can come to. The two failures stay distinguishable:
/// an unknown URI answers 404, a known URI without the request's method
/// answers 405.
pub enum DispatchModel<H> {
    Found(Handler<H>),
    MethodNotAllowed,
    NotFound,
}

/// The routing decision for a request with the given URI and method.
pub open spec fn dispatch_model<H>(rs: RoutesView<H>, uri: Seq<char>, m: Method) -> DispatchModel<H> {
    if !has_uri(rs, uri) {
        DispatchModel::NotFound
    } else if first_match(handlers_for(rs, uri), m) == -1 {
        DispatchModel::MethodNotAllowed
    } else {
        DispatchModel::Found(handlers_for(rs, uri)[first_match(handlers_for(rs, uri), m)])
    }
}

pub proof fn lemma_entry_index_props<H>(rs: RoutesView<H>, uri: Seq<char>)
    ensures
        entry_index(rs, uri) == -1 ==> forall|k: int| 0 <= k < rs.len() ==> rs[k].0 != uri,
        entry_index(rs, uri) != -1 ==> 0 <= entry_index(rs, uri) < rs.len()
            && rs[entry_index(rs, uri)].0 == uri
            && (forall|k: int| 0 <= k < entry_index(rs, uri) ==> rs[k].0 != uri),
    decreases rs.len(),
{
    if rs.len() > 0 && rs[0].0 != uri {
        lemma_entry_index_props(rs.drop_first(), uri);
        let rest = entry_index(rs.drop_first(), uri);
        if rest == -1 {
            assert forall|k: int| 0 <= k < rs.len() implies rs[k].0 != uri by {
                if k > 0 {
                    assert(rs.drop_first()[k - 1] == rs[k]);
                }
            }
        } else {
            assert(rs.drop_first()[rest] == rs[rest + 1]);
            assert forall|k: int| 0 <= k < rest + 1 implies rs[k].0 != uri by {
                if k > 0 {
                    assert(rs.drop_first()[k - 1] == rs[k]);
                }
            }
        }
    }
}

pub proof fn lemma_entry_index_first<H>(rs: RoutesView<H>, uri: Seq<char>, i: int)
    requires
        0 <= i < rs.len(),
        rs[i].0 == uri,
        forall|k: int| 0 <= k < i ==> rs[k].0 != uri,
    ensures
        entry_index(rs, uri) == i,
    decreases i,
{
    if rs[0].0 == uri {
        assert(i == 0);
    } else {
        assert(rs.drop_first()[i - 1] == rs[i]);
        assert forall|k: int| 0 <= k < i - 1 implies rs.drop_first()[k].0 != uri by {
            assert(rs.drop_first()[k] == rs[k + 1]);
        }
        lemma_entry_index_first(rs.drop_first(), uri, i - 1);
    }
}

pub proof fn lemma_first_match_props<H>(hs: Seq<Handler<H>>, m: Method)
    ensures
        first_match(hs, m) == -1 ==> forall|k: int| 0 <= k < hs.len() ==> hs[k].method != m,
        first_match(hs, m) != -1 ==> 0 <= first_match(hs, m) < hs.len()
            && hs[first_match(hs, m)].method == m
            && (forall|k: int| 0 <= k < first_match(hs, m) ==> hs[k].method != m),
    decreases hs.len(),
{
    if hs.len() > 0 && hs[0].method != m {
        lemma_first_match_props(hs.drop_first(), m);
        let rest = first_match(hs.drop_first(), m);
        if rest == -1 {
            assert forall|k: int| 0 <= k < hs.len() implies hs[k].method != m by {
                if k > 0 {
                    assert(hs.drop_first()[k - 1] == hs[k]);
                }
            }
        } else {
            assert(hs.drop_first()[rest] == hs[rest + 1]);
            assert forall|k: int| 0 <= k < rest + 1 implies hs[k].method != m by {
                if k > 0 {
                    assert(hs.drop_first()[k - 1] == hs[k]);
                }
            }
        }
    }
}

pub proof fn lemma_first_match_first<H>(hs: Seq<Handler<H>>, m: Method, i: int)
    requires
        0 <= i < hs.len(),
        hs[i].method == m,
        forall|k: int| 0 <= k < i ==> hs[k].method != m,
    ensures
        first_match(hs, m) == i,
    decreases i,
{
    if hs[0].method == m {
        assert(i == 0);
    } else {
        assert(hs.drop_first()[i - 1] == hs[i]);
        assert forall|k: int| 0 <= k < i - 1 implies hs.drop_first()[k].method != m by {
            assert(hs.drop_first()[k] == hs[k + 1]);
        }
        lemma_first_match_first(hs.drop_first(), m, i - 1);
    }
}

pub proof fn lemma_first_match_push<H>(hs: Seq<Handler<H>>, h: Handler<H>, m: Method)
    ensures
        first_match(hs.push(h), m) == (if first_match(hs, m) != -1 {
            first_match(hs, m)
        } else if h.method == m {
            hs.len() as int
        } else {
            -1
        }),
    decreases hs.len(),
{
    if hs.len() == 0 {
        assert(hs.push(h).len() == 1);
        assert(hs.push(h)[0] == h);
        assert(hs.push(h).drop_first() =~= Seq::<Handler<H>>::empty());
        assert(first_match(Seq::<Handler<H>>::empty(), m) == -1);
    } else {
        assert(hs.push(h)[0] == hs[0]);
        assert(hs.push(h).drop_first() =~= hs.drop_first().push(h));
        lemma_first_match_push(hs.drop_first(), h, m);
        lemma_first_match_props(hs.drop_first(), m);
        lemma_first_match_props(hs.drop_first().push(h), m);
        assert(first_match(hs.push(h), m) == (if hs[0].method == m {
            0
        } else if first_match(hs.drop_first().push(h), m) == -1 {
            -1int
        } else {
            first_match(hs.drop_first().push(h), m) + 1
        }));
    }
}

pub proof fn lemma_entry_index_same_uris<H, G>(rs1: RoutesView<H>, rs2: RoutesView<G>, uri: Seq<char>)
    requires
        rs1.len() == rs2.len(),
        forall|k: int| 0 <= k < rs1.len() ==> rs1[k].0 == rs2[k].0,
    ensures
        entry_index(rs1, uri) == entry_index(rs2, uri),
    decreases rs1.len(),
{
    if rs1.len() > 0 {
        assert(rs1[0].0 == rs2[0].0);
        if rs1[0].0 != uri {
            assert forall|k: int| 0 <= k < rs1.drop_first().len() implies rs1.drop_first()[k].0
                == rs2.drop_first()[k].0 by {
                assert(rs1.drop_first()[k] == rs1[k + 1]);
                assert(rs2.drop_first()[k] == rs2[k + 1]);
            }
            lemma_entry_index_same_uris(rs1.drop_first(), rs2.drop_first(), uri);
        }
    }
}

/// Registering leaves every URI's entry where it was: the updated table
/// finds the same entry index for every URI.
pub proof fn lemma_register_keeps_entry_index<H>(
    rs: RoutesView<H>,
    uri: Seq<char>,
    m: Method,
    h: H,
    other: Seq<char>,
)
    requires
        has_uri(rs, uri),
    ensures
        entry_index(register_model(rs, uri, m, h), other) == entry_index(rs, other),
{
    lemma_entry_index_props(rs, uri);
    lemma_entry_index_same_uris(register_model(rs, uri, m, h), rs, other);
}

/// Law: registering under one URI touches no other URI. For any `other`
/// distinct from `uri`, its entry and handler list are unchanged, so every
/// dispatch on `other` decides exactly as before.
pub proof fn lemma_register_leaves_other_uris<H>(
    rs: RoutesView<H>,
    uri: Seq<char>,
    m: Method,
    h: H,
    other: Seq<char>,
    m2: Method,
)
    requires
        has_uri(rs, uri),
        other != uri,
    ensures
        dispatch_model(register_model(rs, uri, m, h), other, m2) == dispatch_model(rs, other, m2),
{
    let rs1 = register_model(rs, uri, m, h);
    lemma_entry_index_props(rs, uri);
    lemma_register_keeps_entry_index(rs, uri, m, h, other);
    lemma_entry_index_props(rs, other);
    if has_uri(rs, other) {
        let eo = entry_index(rs, other);
        let ei = entry_index(rs, uri);
        assert(rs[eo].0 == other);
        assert(rs[ei].0 == uri);
        assert(rs1[eo] == rs[eo]);
    }
}

/// Law: dispatch reaches the handler registered for the pair. Appending a
/// handler for (`uri`, `m`) to a table whose `uri` entry has no handler of
/// method `m` makes dispatch on (`uri`, `m`) return exactly that handler.
pub proof fn lemma_register_then_dispatch<H>(rs: RoutesView<H>, uri: Seq<char>, m: Method, h: H)
    requires
        has_uri(rs, uri),
        first_match(handlers_for(rs, uri), m) == -1,
    ensures
        dispatch_model(register_model(rs, uri, m, h), uri, m) == DispatchModel::Found(
            Handler { method: m, handler: h },
        ),
{
    lemma_entry_index_props(rs, uri);
    let rs1 = register_model(rs, uri, m, h);
    lemma_register_keeps_entry_index(rs, uri, m, h, uri);
    let hs = handlers_for(rs, uri);
    assert(handlers_for(rs1, uri) == hs.push(Handler { method: m, handler: h }));
    lemma_first_match_push(hs, Handler { method: m, handler: h }, m);
    assert(handlers_for(rs1, uri)[hs.len() as int] == Handler { method: m, handler: h });
}

/// Law: handlers under one URI but different methods are independently
/// dispatchable. After registering (`uri`, `m1`, `h1`) and then
/// (`uri`, `m2`, `h2`) with `m1 != m2`, on a table whose `uri` entry had no
/// handler of either method, dispatch reaches `h1` for `m1` and `h2` for
/// `m2`.
pub proof fn lemma_methods_dispatch_independently<H>(
    rs: RoutesView<H>,
    uri: Seq<char>,
    m1: Method,
    h1: H,
    m2: Method,
    h2: H,
)
    requires
        has_uri(rs, uri),
        m1 != m2,
        first_match(handlers_for(rs, uri), m1) == -1,
        first_match(handlers_for(rs, uri), m2) == -1,
    ensures
        ({
            let rs2 = register_model(register_model(rs, uri, m1, h1), uri, m2, h2);
            &&& dispatch_model(rs2, uri, m1) == DispatchModel::Found(
                Handler { method: m1, handler: h1 },
            )
            &&& dispatch_model(rs2, uri, m2) == DispatchModel::Found(
                Handler { method: m2, handler: h2 },
            )
        }),
{
    lemma_entry_index_props(rs, uri);
    let hd1 = Handler { method: m1, handler: h1 };
    let hd2 = Handler { method: m2, handler: h2 };
    let rs1 = register_model(rs, uri, m1, h1);
    let rs2 = register_model(rs1, uri, m2, h2);
    let hs = handlers_for(rs, uri);
    lemma_register_keeps_entry_index(rs, uri, m1, h1, uri);
    assert(handlers_for(rs1, uri) == hs.push(hd1));
    lemma_register_keeps_entry_index(rs1, uri, m2, h2, uri);
    assert(handlers_for(rs2, uri) == hs.push(hd1).push(hd2));
    lemma_first_match_push(hs, hd1, m1);
    lemma_first_match_push(hs.push(hd1), hd2, m1);
    assert(handlers_for(rs2, uri)[hs.len() as int] == hd1);
    lemma_first_match_push(hs, hd1, m2);
    lemma_first_match_push(hs.push(hd1), hd2, m2);
    assert(handlers_for(rs2, uri)[hs.len() as int + 1] == hd2);
}

/// Law: for every registered (URI, method) pair, a request with that URI
/// and method reaches a handler registered for exactly that pair — the
/// first one in registration order, so among duplicates of one method the
/// earliest wins.
pub proof fn lemma_dispatch_reaches_registered<H>(
    rs: RoutesView<H>,
    uri: Seq<char>,
    m: Method,
    i: int,
)
    requires
        has_uri(rs, uri),
        0 <= i < handlers_for(rs, uri).len(),
        handlers_for(rs, uri)[i].method == m,
    ensures
        ({
            let hs = handlers_for(rs, uri);
            let f = first_match(hs, m);
            &&& 0 <= f <= i
            &&& hs[f].method == m
            &&& dispatch_model(rs, uri, m) == DispatchModel::Found(hs[f])
            &&& forall|k: int| 0 <= k < f ==> hs[k].method != m
        }),
{
    let hs = handlers_for(rs, uri);
    lemma_first_match_props(hs, m);
}

/// One entry of the route table: a URI and its handlers in registration
/// order.
pub struct RouteEntry<H> {
    pub uri: String,
    pub handlers: Vec<Handler<H>>,
}

/// The route table: an ordered list of entries, at most one per URI, each
/// carrying its handlers in registration order. Built before the server
/// starts and read-only afterwards; connection tasks share it by reference.
pub struct RouteTable<H> {
    pub entries: Vec<RouteEntry<H>>,
}

impl<H> View for RouteTable<H> {
    type V = RoutesView<H>;

    open spec fn view(&self) -> RoutesView<H> {
        self.entries@.map_values(|e: RouteEntry<H>| (e.uri@, e.handlers@))
    }
}

/// A dispatch outcome over a borrowed table.
pub enum Dispatch<'a, H> {
    Found(&'a Handler<H>),
    MethodNotAllowed,
    NotFound,
}

impl<H: Fn(&Request) -> Response> RouteTable<H> {
    pub fn new() -> (t: RouteTable<H>)
        ensures
            t@.len() == 0,
    {
        RouteTable { entries: Vec::new() }
    }

    /// Index of the entry for `uri`, scanning in order; the first hit is
    /// the one every later operation works with.
    fn find_entry(&self, uri: &String) -> (o: Option<usize>)
        ensures
            match o {
                Some(i) => entry_index(self@, uri@) == i as int,
                None => !has_uri(self@, uri@),
            },
    {
        let n = self.entries.len();
        let mut i: usize = 0;
        while i < n
            invariant
                n == self.entries.len(),
                i <= n,
                forall|k: int| 0 <= k < i ==> self@[k].0 != uri@,
            decreases n - i,
        {
            if self.entries[i].uri == *uri {
                proof {
                    lemma_entry_index_first(self@, uri@, i as int);
                }
                return Some(i);
            }
            i += 1;
        }
        proof {
            lemma_entry_index_props(self@, uri@);
        }
        None
    }

    /// Find-or-insert the entry for `uri`: after the call the table has an
    /// entry for it, existing handlers untouched; a fresh entry starts with
    /// no handlers. Never removes or reorders anything.
    pub fn ensure_entry(&mut self, uri: &str)
        ensures
            has_uri(old(self)@, uri@) ==> final(self)@ == old(self)@,
            !has_uri(old(self)@, uri@) ==> final(self)@
                =~= old(self)@.push((uri@, Seq::<Handler<H>>::empty())),
            has_uri(final(self)@, uri@),
            routes_wf(old(self)@) ==> routes_wf(final(self)@),
    {
        let owned = uri.to_owned();
        match self.find_entry(&owned) {
            Some(_) => {
                proof {
                    lemma_entry_index_props(self@, uri@);
                }
            },
            None => {
                proof {
                    lemma_entry_index_props(self@, uri@);
                }
                let entry = RouteEntry { uri: owned, handlers: Vec::new() };
                self.entries.push(entry);
                proof {
                    assert(final(self)@ =~= old(self)@.push((uri@, Seq::<Handler<H>>::empty())));
                    lemma_entry_index_first(final(self)@, uri@, old(self)@.len() as int);
                }
            },
        }
    }

    /// Append a handler for (`uri`, `method`) to `uri`'s entry. The entry
    /// must already exist — creating it is `ensure_entry`'s job. No
    /// uniqueness check on the method: a duplicate is kept but unreachable,
    /// since dispatch takes the first match.
    pub fn register(&mut self, uri: &str, method: Method, handler: H)
        requires
            has_uri(old(self)@, uri@),
        ensures
            final(self)@ =~= register_model(old(self)@, uri@, method, handler),
            routes_wf(old(self)@) ==> routes_wf(final(self)@),
    {
        let owned = uri.to_owned();
        let found = self.find_entry(&owned);
        proof {
            lemma_entry_index_props(self@, uri@);
        }
        match found {
            Some(i) => {
                let mut entry = self.entries.remove(i);
                entry.handlers.push(Handler::new(method, handler));
                self.entries.insert(i, entry);
                proof {
                    assert(final(self)@ =~= register_model(old(self)@, uri@, method, handler));
                }
            },
            None => {
                proof {
                    assert(false);
                }
            },
        }
    }

    /// Look the request's URI and method up: `NotFound` when no entry has
    /// the URI, `MethodNotAllowed` when the entry has no handler of the
    /// method, and otherwise the first handler registered for the pair.
    pub fn dispatch<'a>(&'a self, uri: &String, method: Method) -> (d: Dispatch<'a, H>)
        ensures
            match d {
                Dispatch::Found(h) => dispatch_model(self@, uri@, method)
                    == DispatchModel::Found(*h),
                Dispatch::MethodNotAllowed => dispatch_model(self@, uri@, method)
                    is MethodNotAllowed,
                Dispatch::NotFound => dispatch_model(self@, uri@, method) is NotFound,
            },
    {
        match self.find_entry(uri) {
            None => Dispatch::NotFound,
            Some(i) => {
                proof {
                    lemma_entry_index_props(self@, uri@);
                }
                match Self::find_handler(&self.entries[i].handlers, method) {
                    Some(h) => Dispatch::Found(h),
                    None => Dispatch::MethodNotAllowed,
                }
            },
        }
    }

    /// First handler in `handlers` whose method is `method`, in
    /// registration order.
    fn find_handler<'a>(handlers: &'a Vec<Handler<H>>, method: Method) -> (o: Option<
        &'a Handler<H>,
    >)
        ensures
            match o {
                Some(h) => first_match(handlers@, method) >= 0 && *h == handlers@[first_match(
                    handlers@,
                    method,
                )],
                None => first_match(handlers@, method) == -1,
            },
    {
        let n = handlers.len();
        let mut j: usize = 0;
        while j < n
            invariant
                n == handlers.len(),
                j <= n,
                forall|k: int| 0 <= k < j ==> handlers@[k].method != method,
            decreases n - j,
        {
            if handlers[j].method == method {
                proof {
                    lemma_first_match_first(handlers@, method, j as int);
                }
                return Some(&handlers[j]);
            }
            j += 1;
        }
        proof {
            lemma_first_match_props(handlers@, method);
        }
        None
    }
}

} // verus!
