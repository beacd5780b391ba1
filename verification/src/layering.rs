//! Layered configuration: a configuration file is read as a tree of TOML
//! tables, and each layer is merged on top of the previous one.
//!
//! Scalar values (and arrays) of the upper layer replace those below;
//! tables are merged key by key, recursively.

use vstd::prelude::*;

verus! {

#[verifier::external_type_specification]
#[verifier::external_body]
pub struct ExTomlValue(toml::Value);

/// A node of a TOML document as layering sees it: a table of keyed nodes,
/// or any other value, carried through untouched.
#[derive(Debug)]
pub enum TomlNode {
    Table(Vec<(String, TomlNode)>),
    Value(toml::Value),
}

/// The view of a node: a table is a sequence of keyed nodes.
pub enum NodeView {
    Table(Seq<(Seq<char>, NodeView)>),
    Value(toml::Value),
}

/// The view of a node.
pub open spec fn node_view(n: TomlNode) -> NodeView
    decreases n,
{
    match n {
        TomlNode::Table(v) => NodeView::Table(entries_view(v@)),
        TomlNode::Value(x) => NodeView::Value(x),
    }
}

/// The view of the entries of a table.
pub open spec fn entries_view(s: Seq<(String, TomlNode)>) -> Seq<(Seq<char>, NodeView)>
    decreases s,
{
    if s.len() == 0 {
        Seq::empty()
    } else {
        entries_view(s.drop_last()).push((s.last().0@, node_view(s.last().1)))
    }
}

/// The position of the first entry with key `k`, if any.
pub open spec fn find_key(s: Seq<(Seq<char>, NodeView)>, k: Seq<char>) -> Option<int>
    decreases s.len(),
{
    if s.len() == 0 {
        None
    } else {
        match find_key(s.drop_last(), k) {
            Some(i) => Some(i),
            None => if s.last().0 == k { Some(s.len() - 1) } else { None },
        }
    }
}

/// The node under key `k`: that of the first entry with the key.
pub open spec fn lookup_key(s: Seq<(Seq<char>, NodeView)>, k: Seq<char>) -> Option<NodeView> {
    match find_key(s, k) {
        Some(i) => Some(s[i].1),
        None => None,
    }
}

/// Whether key `k` occurs in a table.
pub open spec fn has_key(s: Seq<(Seq<char>, NodeView)>, k: Seq<char>) -> bool {
    find_key(s, k) is Some
}

/// Set key `k` to `v`: the first entry with the key is replaced in place,
/// or a new entry is appended.
pub open spec fn put_key(s: Seq<(Seq<char>, NodeView)>, k: Seq<char>, v: NodeView) -> Seq<(Seq<char>, NodeView)> {
    match find_key(s, k) {
        Some(i) => s.update(i, (k, v)),
        None => s.push((k, v)),
    }
}

/// What a key of the upper layer holds after merging onto `below` (what
/// the lower layer holds under that key): two tables merge, otherwise the
/// upper node wins.
pub open spec fn merged_node(below: Option<NodeView>, upper: NodeView) -> NodeView
    decreases upper,
{
    match upper {
        NodeView::Table(ut) => match below {
            Some(NodeView::Table(bt)) => NodeView::Table(merge_view(bt, ut)),
            _ => upper,
        },
        NodeView::Value(_) => upper,
    }
}

/// The table `upper` merged onto `base`: its entries are applied in order.
pub open spec fn merge_view(base: Seq<(Seq<char>, NodeView)>, upper: Seq<(Seq<char>, NodeView)>) -> Seq<
    (Seq<char>, NodeView),
>
    decreases upper,
{
    if upper.len() == 0 {
        base
    } else {
        let acc = merge_view(base, upper.drop_last());
        let (k, v) = upper.last();
        put_key(acc, k, merged_node(lookup_key(acc, k), v))
    }
}

/// The number of nodes of a tree, which every recursive merge reduces.
pub open spec fn node_size(n: TomlNode) -> nat
    decreases n,
{
    match n {
        TomlNode::Table(v) => 1 + entries_size(v@),
        TomlNode::Value(_) => 1,
    }
}

/// The number of nodes under the entries of a table.
pub open spec fn entries_size(s: Seq<(String, TomlNode)>) -> nat
    decreases s,
{
    if s.len() == 0 {
        0
    } else {
        entries_size(s.drop_last()) + node_size(s.last().1)
    }
}

/// The view of a table has one keyed node per entry, in order.
proof fn lemma_entries_view(s: Seq<(String, TomlNode)>)
    ensures
        entries_view(s).len() == s.len(),
        forall|i: int| 0 <= i < s.len() ==> #[trigger] entries_view(s)[i] == (s[i].0@, node_view(s[i].1)),
    decreases s.len(),
{
    if s.len() > 0 {
        lemma_entries_view(s.drop_last());
    }
}

/// The first entry with a key is found: it has the key, and no earlier
/// entry has it.
proof fn lemma_find_key(s: Seq<(Seq<char>, NodeView)>, k: Seq<char>)
    ensures
        match find_key(s, k) {
            Some(i) => 0 <= i < s.len() && s[i].0 == k && forall|j: int| 0 <= j < i ==> s[j].0 != k,
            None => forall|j: int| 0 <= j < s.len() ==> s[j].0 != k,
        },
    decreases s.len(),
{
    if s.len() > 0 {
        let p = s.drop_last();
        lemma_find_key(p, k);
        assert(forall|j: int| 0 <= j < p.len() ==> p[j] == s[j]);
        match find_key(p, k) {
            Some(i) => {},
            None => {
                if s.last().0 == k {
                } else {
                    assert forall|j: int| 0 <= j < s.len() implies s[j].0 != k by {
                        if j < p.len() {
                            assert(p[j] == s[j]);
                        }
                    }
                }
            },
        }
    }
}

/// The position of the first entry of `base` whose key is `k`.
fn find_entry(base: &Vec<(String, TomlNode)>, k: &String) -> (r: Option<usize>)
    ensures
        match r {
            Some(i) => find_key(entries_view(base@), k@) == Some(i as int),
            None => find_key(entries_view(base@), k@) is None,
        },
{
    let ghost v = entries_view(base@);
    proof {
        lemma_entries_view(base@);
        lemma_find_key(v, k@);
    }
    let mut i: usize = 0;
    while i < base.len()
        invariant
            i <= base@.len(),
            v == entries_view(base@),
            v.len() == base@.len(),
            forall|j: int| 0 <= j < base@.len() ==> #[trigger] v[j] == (base@[j].0@, node_view(base@[j].1)),
            forall|j: int| 0 <= j < i ==> v[j].0 != k@,
            match find_key(v, k@) {
                Some(x) => 0 <= x < v.len() && v[x].0 == k@ && forall|j: int| 0 <= j < x ==> v[j].0 != k@,
                None => forall|j: int| 0 <= j < v.len() ==> v[j].0 != k@,
            },
        decreases base.len() - i,
    {
        if base[i].0.eq(k) {
            assert(v[i as int].0 == k@);
            return Some(i);
        }
        i = i + 1;
    }
    None
}

/// Replacing an entry replaces its view.
proof fn lemma_entries_view_update(s: Seq<(String, TomlNode)>, i: int, e: (String, TomlNode))
    requires
        0 <= i < s.len(),
    ensures
        entries_view(s.update(i, e)) == entries_view(s).update(i, (e.0@, node_view(e.1))),
{
    lemma_entries_view(s);
    lemma_entries_view(s.update(i, e));
    assert(entries_view(s.update(i, e)) =~= entries_view(s).update(i, (e.0@, node_view(e.1))));
}

/// Appending an entry appends its view.
proof fn lemma_entries_view_push(s: Seq<(String, TomlNode)>, e: (String, TomlNode))
    ensures
        entries_view(s.push(e)) == entries_view(s).push((e.0@, node_view(e.1))),
{
    assert(s.push(e).drop_last() =~= s);
}

/// Merge one entry of an upper layer, `key` holding `val`, into `base`.
fn merge_entry(base: &mut Vec<(String, TomlNode)>, key: String, val: TomlNode)
    ensures
        entries_view(final(base)@) == ({
            let b = entries_view(old(base)@);
            put_key(b, key@, merged_node(lookup_key(b, key@), node_view(val)))
        }),
    decreases node_size(val), 0nat,
{
    let ghost b = entries_view(base@);
    proof {
        lemma_entries_view(base@);
        lemma_find_key(b, key@);
    }
    match find_entry(base, &key) {
        None => {
            proof {
                lemma_entries_view_push(base@, (key, val));
            }
            base.push((key, val));
        },
        Some(i) => {
            let ghost before = base@;
            let (k0, below) = base.remove(i);
            assert(b[i as int] == (k0@, node_view(below)));
            let entry = match below {
                TomlNode::Table(mut bt) => match val {
                    TomlNode::Table(ut) => {
                        let ghost bt0 = bt@;
                        merge_tables(&mut bt, ut);
                        assert(node_view(TomlNode::Table(bt)) == NodeView::Table(
                            merge_view(entries_view(bt0), entries_view(ut@)),
                        ));
                        (key, TomlNode::Table(bt))
                    },
                    other => (key, other),
                },
                other_below => (key, val),
            };
            base.insert(i, entry);
            proof {
                assert(base@ =~= before.update(i as int, entry));
                lemma_entries_view_update(before, i as int, entry);
            }
        },
    }
}

/// Merge the table `overlay` of an upper layer into `base`: scalar values
/// and arrays of the upper layer replace those below, tables are merged
/// recursively, and keys only the upper layer has are added.
pub fn merge_tables(base: &mut Vec<(String, TomlNode)>, overlay: Vec<(String, TomlNode)>)
    ensures
        entries_view(final(base)@) == merge_view(entries_view(old(base)@), entries_view(overlay@)),
    decreases entries_size(overlay@), 1nat,
{
    let ghost whole = overlay@;
    let mut overlay = overlay;
    match overlay.pop() {
        None => {
            assert(whole.len() == 0);
        },
        Some(last) => {
            let (k, v) = last;
            assert(overlay@ =~= whole.drop_last());
            assert(entries_view(whole).drop_last() =~= entries_view(overlay@));
            assert(whole.last() == (k, v));
            assert(node_size(v) >= 1);
            assert(entries_size(whole) == entries_size(overlay@) + node_size(v));
            merge_tables(base, overlay);
            merge_entry(base, k, v);
        },
    }
}

/// The layering tree `toml` makes of a value it parsed: a table becomes
/// a table of its entries' trees, in the crate's iteration order; any
/// other value stays as it is.
pub uninterp spec fn toml_node(v: toml::Value) -> NodeView;

/// What `toml::from_str` makes of a document's text read as a table: its
/// top-level entries in the crate's iteration order, or the text of its
/// error.
pub uninterp spec fn toml_top(text: Seq<char>) -> Result<Seq<(Seq<char>, toml::Value)>, Seq<char>>;

/// The table a configuration document holds, as a layering tree, or the
/// parser's error.
pub open spec fn toml_document(text: Seq<char>) -> Result<Seq<(Seq<char>, NodeView)>, Seq<char>> {
    match toml_top(text) {
        Ok(es) => Ok(es.map_values(|e: (Seq<char>, toml::Value)| (e.0, toml_node(e.1)))),
        Err(m) => Err(m),
    }
}

/// `toml::from_str::<toml::value::Table>`: the top-level entries of a
/// document, or the `Display` text of the parse error.
#[verifier::external_body]
fn parse_toml_top(text: &str) -> (r: Result<Vec<(String, toml::Value)>, String>)
    ensures
        match toml_top(text@) {
            Ok(es) => r matches Ok(v) && v@.map_values(|e: (String, toml::Value)| (e.0@, e.1)) == es,
            Err(m) => r matches Err(e) && e@ == m,
        },
{
    match toml::from_str::<toml::value::Table>(text) {
        Ok(t) => Ok(t.into_iter().collect()),
        Err(e) => Err(e.to_string()),
    }
}

/// A parsed TOML value as a layering tree: the variants of `toml::Value`
/// told apart, a table's entries converted in turn.
#[verifier::external_body]
fn toml_node_of(v: toml::Value) -> (r: TomlNode)
    ensures
        node_view(r) == toml_node(v),
{
    match v {
        toml::Value::Table(t) => TomlNode::Table(t.into_iter().map(|(k, x)| (k, toml_node_of(x))).collect()),
        other => TomlNode::Value(other),
    }
}

/// Parse a configuration document and merge its table onto `base`, as an
/// upper layer.
///
/// # Errors
///
/// The parser's error text when the document is not valid TOML; `base` is
/// then unchanged.
pub fn merge_document(base: &mut Vec<(String, TomlNode)>, text: &str) -> (r: Result<(), String>)
    ensures
        match toml_document(text@) {
            Ok(t) => r is Ok && entries_view(final(base)@) == merge_view(entries_view(old(base)@), t),
            Err(m) => r matches Err(e) && e@ == m && final(base)@ == old(base)@,
        },
{
    let top = match parse_toml_top(text) {
        Ok(v) => v,
        Err(m) => return Err(m),
    };
    let ghost es = top@.map_values(|e: (String, toml::Value)| (e.0@, e.1));
    let ghost want = es.map_values(|e: (Seq<char>, toml::Value)| (e.0, toml_node(e.1)));
    let mut overlay: Vec<(String, TomlNode)> = Vec::new();
    let total = top.len();
    let mut rest = top;
    let mut i: usize = 0;
    while rest.len() > 0
        invariant
            i + rest@.len() == es.len(),
            es.len() == total,
            want.len() == es.len(),
            forall|j: int| 0 <= j < want.len() ==> #[trigger] want[j] == (es[j].0, toml_node(es[j].1)),
            forall|j: int| 0 <= j < rest@.len() ==> (#[trigger] rest@[j]).0@ == es[i + j].0
                && rest@[j].1 == es[i + j].1,
            entries_view(overlay@) == want.subrange(0, i as int),
        decreases rest@.len(),
    {
        let ghost before = overlay@;
        let ghost old_rest = rest@;
        let (k, x) = rest.remove(0);
        assert(k@ == es[i as int].0 && x == es[i as int].1);
        let n = toml_node_of(x);
        overlay.push((k, n));
        proof {
            lemma_entries_view_push(before, overlay@.last());
            assert(overlay@ =~= before.push(overlay@.last()));
            assert forall|j: int| 0 <= j < rest@.len() implies (#[trigger] rest@[j]).0@ == es[i + 1 + j].0
                && rest@[j].1 == es[i + 1 + j].1 by {
                assert(rest@[j] == old_rest[j + 1]);
            }
        }
        i = i + 1;
        assert(entries_view(overlay@) =~= want.subrange(0, i as int));
    }
    assert(want.subrange(0, i as int) =~= want);
    merge_tables(base, overlay);
    Ok(())
}

/// Whether no two entries of a table share a key.
pub open spec fn keys_distinct(s: Seq<(Seq<char>, NodeView)>) -> bool {
    forall|i: int, j: int| 0 <= i < j < s.len() ==> s[i].0 != s[j].0
}

/// Setting a key changes what that key holds and nothing else.
pub proof fn lemma_put_key(s: Seq<(Seq<char>, NodeView)>, k: Seq<char>, v: NodeView, q: Seq<char>)
    ensures
        lookup_key(put_key(s, k, v), q) == if q == k { Some(v) } else { lookup_key(s, q) },
        has_key(put_key(s, k, v), q) == (q == k || has_key(s, q)),
        keys_distinct(s) ==> keys_distinct(put_key(s, k, v)),
{
    let t = put_key(s, k, v);
    lemma_find_key(s, k);
    lemma_find_key(s, q);
    lemma_find_key(t, q);
    match find_key(s, k) {
        Some(i) => {
            assert(t == s.update(i, (k, v)));
            match find_key(t, q) {
                Some(x) => {
                    if q == k {
                        if x < i {
                            assert(t[x] == s[x]);
                        }
                        if x > i {
                            assert(t[i].0 == q);
                        }
                    } else {
                        assert(t[x] == s[x]);
                        match find_key(s, q) {
                            Some(y) => {
                                if y < x {
                                    assert(t[y] == s[y]);
                                }
                            },
                            None => {},
                        }
                    }
                },
                None => {
                    assert(t[i].0 == k);
                    match find_key(s, q) {
                        Some(y) => {
                            assert(t[y].0 == q || y == i);
                        },
                        None => {},
                    }
                },
            }
        },
        None => {
            assert(t == s.push((k, v)));
            match find_key(t, q) {
                Some(x) => {
                    if x < s.len() {
                        assert(t[x] == s[x]);
                        match find_key(s, q) {
                            Some(y) => {
                                if y < x {
                                    assert(t[y] == s[y]);
                                }
                            },
                            None => {},
                        }
                    }
                },
                None => {
                    assert(t[s.len() as int].0 == k);
                    match find_key(s, q) {
                        Some(y) => {
                            assert(t[y] == s[y]);
                        },
                        None => {},
                    }
                },
            }
        },
    }
}

/// Layering, key by key: after an upper layer (with distinct keys) is
/// merged onto a lower one, a key the upper layer sets holds the upper
/// node merged onto what the lower layer held (tables merge, anything else
/// is replaced), and a key the upper layer leaves out holds what the lower
/// layer held.
pub proof fn lemma_merge_lookup(base: Seq<(Seq<char>, NodeView)>, upper: Seq<(Seq<char>, NodeView)>, k: Seq<char>)
    requires
        keys_distinct(upper),
    ensures
        lookup_key(merge_view(base, upper), k) == match lookup_key(upper, k) {
            Some(u) => Some(merged_node(lookup_key(base, k), u)),
            None => lookup_key(base, k),
        },
    decreases upper.len(),
{
    if upper.len() > 0 {
        let p = upper.drop_last();
        assert(keys_distinct(p));
        lemma_merge_lookup(base, p, k);
        let acc = merge_view(base, p);
        let (k1, v1) = upper.last();
        lemma_put_key(acc, k1, merged_node(lookup_key(acc, k1), v1), k);
        lemma_find_key(upper, k);
        lemma_find_key(p, k);
        if k == k1 {
            assert forall|j: int| 0 <= j < p.len() implies p[j].0 != k by {
                assert(upper[j] == p[j]);
                assert(upper[upper.len() - 1].0 == k1);
            }
            lemma_merge_lookup(base, p, k1);
            assert(find_key(upper, k) == Some(upper.len() - 1));
        } else {
            match find_key(p, k) {
                Some(x) => {
                    assert(upper[x] == p[x]);
                },
                None => {
                    assert forall|j: int| 0 <= j < upper.len() implies upper[j].0 != k by {
                        if j < p.len() {
                            assert(upper[j] == p[j]);
                        }
                    }
                },
            }
        }
    }
}

/// Merging keeps keys distinct: a lower layer without repeated keys gives
/// a merged table without repeated keys.
pub proof fn lemma_merge_keys_distinct(base: Seq<(Seq<char>, NodeView)>, upper: Seq<(Seq<char>, NodeView)>)
    requires
        keys_distinct(base),
    ensures
        keys_distinct(merge_view(base, upper)),
    decreases upper.len(),
{
    if upper.len() > 0 {
        lemma_merge_keys_distinct(base, upper.drop_last());
        let acc = merge_view(base, upper.drop_last());
        let (k1, v1) = upper.last();
        lemma_put_key(acc, k1, merged_node(lookup_key(acc, k1), v1), k1);
    }
}

} // verus!
