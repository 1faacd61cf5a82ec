//! Resolution of menu-search results against the cached catalog.
//!
//! The vector-search backend ranks points whose identifiers are the query
//! ids the catalog items were indexed under; each identifier coming back is
//! resolved to its catalog item here, and unresolvable identifiers are
//! dropped.  The embedding and the nearest-neighbour search themselves are
//! I/O and live with the caller.

use vstd::prelude::*;

use crate::qu::{Item, Menus, Modifiers};

verus! {

/// What one indexed point carries: the item's path key, every parent prefix
/// of that key, and the display text the embedding was computed from.
pub struct QueryPayload {
    pub item_path_key: String,
    pub parent_path_keys: Vec<String>,
    pub title: String,
    pub description: String,
}

/// Whether `id` is the query id of `item` or of any node beneath it.
pub open spec fn tree_has_query_id(item: Item, id: Seq<char>) -> bool
    decreases item,
{
    item.query_id@ == id || exists|i: int|
        0 <= i < item.children.len() && tree_has_query_id(#[trigger] item.children[i], id)
}

/// Whether a top-level menu item carries this query id.
pub open spec fn menu_has_query_id(menus: Menus, id: Seq<char>) -> bool {
    exists|c: int, i: int|
        0 <= c < menus.value.unwrap().categories.len() && 0 <= i
            < menus.value.unwrap().categories[c].children.len()
            && menus.value.unwrap().categories[c].children[i].query_id@ == id
}

/// Whether any modifier tree of the catalog carries this query id.
pub open spec fn catalog_has_query_id(modifiers: Modifiers, id: Seq<char>) -> bool {
    exists|e: int, t: int|
        0 <= e < modifiers.modifiers.len() && 0 <= t < modifiers.modifiers[e].1.value.len()
            && tree_has_query_id(modifiers.modifiers[e].1.value[t], id)
}

/// Whether `it` is content-equal to a node carrying this query id in the
/// tree rooted at `item`, the root included.
pub open spec fn tree_has_id_match(item: crate::qu::Item, id: Seq<char>, it: crate::qu::Item) -> bool
    decreases item,
{
    (item.query_id@ == id && crate::qu::same_item(item, it)) || exists|i: int|
        0 <= i < item.children.len() && tree_has_id_match(#[trigger] item.children[i], id, it)
}

/// Whether `it` is content-equal to a top-level menu item carrying this
/// query id.
pub open spec fn menu_id_match(menus: Menus, id: Seq<char>, it: crate::qu::Item) -> bool {
    exists|c: int, i: int|
        0 <= c < menus.value.unwrap().categories.len() && 0 <= i
            < menus.value.unwrap().categories[c].children.len()
            && menus.value.unwrap().categories[c].children[i].query_id@ == id
            && crate::qu::same_item(menus.value.unwrap().categories[c].children[i], it)
}

/// Whether `it` is content-equal to a node carrying this query id in some
/// tree of the modifier catalog.
pub open spec fn catalog_id_match(modifiers: Modifiers, id: Seq<char>, it: crate::qu::Item) -> bool {
    exists|e: int, t: int|
        0 <= e < modifiers.modifiers.len() && 0 <= t < modifiers.modifiers[e].1.value.len()
            && tree_has_id_match(modifiers.modifiers[e].1.value[t], id, it)
}

/// The position of the first '-' at or after `from`, or the key's length
/// when none follows.
pub open spec fn first_dash(key: Seq<char>, from: int) -> int
    decreases key.len() - from,
{
    if from >= key.len() {
        key.len() as int
    } else if key[from] == '-' {
        from
    } else {
        first_dash(key, from + 1)
    }
}

proof fn lemma_first_dash_ge(key: Seq<char>, from: int)
    requires
        from <= key.len(),
    ensures
        from <= first_dash(key, from) <= key.len(),
    decreases key.len() - from,
{
    if from < key.len() && key[from] != '-' {
        lemma_first_dash_ge(key, from + 1);
    }
}

proof fn lemma_first_dash_pin(key: Seq<char>, from: int, d: int)
    requires
        0 <= from <= d <= key.len(),
        forall|p: int| from <= p < d ==> key[p] != '-',
        d < key.len() ==> key[d] == '-',
    ensures
        first_dash(key, from) == d,
    decreases d - from,
{
    if from < d {
        lemma_first_dash_pin(key, from + 1, d);
    }
}

/// The prefixes a path key is indexed under, starting the segment scan at
/// `from`: one prefix per dash, and the whole key last.
pub open spec fn spec_parent_path_keys(key: Seq<char>, from: int) -> Seq<Seq<char>>
    decreases key.len() - from
        via spec_parent_path_keys_dec
{
    let d = first_dash(key, from);
    if d >= key.len() {
        seq![key]
    } else {
        seq![key.subrange(0, d)] + spec_parent_path_keys(key, d + 1)
    }
}

#[via_fn]
proof fn spec_parent_path_keys_dec(key: Seq<char>, from: int) {
    if from <= key.len() {
        lemma_first_dash_ge(key, from);
    }
}

/// The position of the first '-' at or after `from`, found by scanning.
fn find_dash(key: &str, from: usize) -> (d: usize)
    requires
        from <= key@.len(),
    ensures
        from <= d <= key@.len(),
        d as int == first_dash(key@, from as int),
{
    let n = key.unicode_len();
    let mut d: usize = from;
    while d < n
        invariant
            from <= d <= n,
            n == key@.len(),
            forall|p: int| from <= p < d ==> key@[p] != '-',
        decreases n - d,
    {
        if key.get_char(d) == '-' {
            proof {
                lemma_first_dash_pin(key@, from as int, d as int);
            }
            return d;
        }
        d = d + 1;
    }
    proof {
        lemma_first_dash_pin(key@, from as int, n as int);
    }
    n
}

/// Derives the parent path prefixes a catalog item is indexed under: the
/// key's prefix up to each dash, in order, and the whole key last — so
/// "47587-56635-122228" is indexed under "47587", "47587-56635" and
/// "47587-56635-122228".  The search backend filters modifier queries by
/// these prefixes to scope them beneath a parent item.
pub fn parent_path_keys(item_path_key: &str) -> (r: Vec<String>)
    ensures
        r@.map_values(|s: String| s@) == spec_parent_path_keys(item_path_key@, 0),
{
    let n = item_path_key.unicode_len();
    let mut out: Vec<String> = Vec::new();
    let mut from: usize = 0;
    loop
        invariant
            from <= n,
            n == item_path_key@.len(),
            out@.map_values(|s: String| s@) + spec_parent_path_keys(item_path_key@, from as int)
                =~= spec_parent_path_keys(item_path_key@, 0),
        decreases n - from,
    {
        let ghost key = item_path_key@;
        let ghost prior = out@.map_values(|s: String| s@);
        let d = find_dash(item_path_key, from);
        if d == n {
            let whole = item_path_key.substring_char(0, n).to_owned();
            out.push(whole);
            proof {
                assert(spec_parent_path_keys(key, from as int) =~= seq![key]);
                assert(out@.map_values(|s: String| s@) =~= prior.push(key)) by {
                    assert(key.subrange(0, n as int) =~= key);
                }
                assert(out@.map_values(|s: String| s@) =~= spec_parent_path_keys(key, 0));
            }
            return out;
        } else {
            let prefix = item_path_key.substring_char(0, d).to_owned();
            out.push(prefix);
            proof {
                assert(spec_parent_path_keys(key, from as int) =~= seq![
                    key.subrange(0, d as int),
                ] + spec_parent_path_keys(key, d as int + 1));
                assert(out@.map_values(|s: String| s@) =~= prior.push(key.subrange(0, d as int)));
                assert(out@.map_values(|s: String| s@) + spec_parent_path_keys(
                    key,
                    d as int + 1,
                ) =~= spec_parent_path_keys(key, 0));
            }
            from = d + 1;
        }
    }
}

/// Resolves a returned point identifier to the top-level menu item indexed
/// under it; a point that carried no identifier resolves to nothing, and
/// what resolves is content-equal to the menu item indexed under the id.
pub fn find_item(menus: &Menus, id: Option<String>) -> (r: Option<Item>)
    requires
        menus.value is Some,
    ensures
        id is None ==> r is None,
        id matches Some(q) ==> ((r is Some) <==> menu_has_query_id(*menus, q@)),
        id matches Some(q) ==> (r matches Some(it) ==> it.query_id@ == q@ && menu_id_match(
            *menus,
            q@,
            it,
        )),
{
    if id.is_none() {
        return None;
    }
    let qid: &String = id.as_ref().unwrap();
    let value = menus.value.as_ref().unwrap();
    let ghost cats = value.categories@;
    let mut c: usize = 0;
    while c < value.categories.len()
        invariant
            id == Some(*qid),
            c <= cats.len(),
            value.categories@ == cats,
            menus.value == Some(*value),
            forall|cc: int, i: int|
                0 <= cc < c && 0 <= i < cats[cc].children.len() ==> cats[cc].children[i].query_id@
                    != qid@,
        decreases cats.len() - c,
    {
        let category = &value.categories[c];
        let mut i: usize = 0;
        while i < category.children.len()
            invariant
                id == Some(*qid),
                c < cats.len(),
                i <= category.children.len(),
                *category == cats[c as int],
                menus.value == Some(*value),
                value.categories@ == cats,
                forall|j: int| 0 <= j < i ==> cats[c as int].children[j].query_id@ != qid@,
            decreases category.children.len() - i,
        {
            if category.children[i].query_id.eq(qid) {
                let found = category.children[i].duplicate();
                proof {
                    let cc = c as int;
                    let ii = i as int;
                    assert(0 <= cc < menus.value.unwrap().categories.len() && 0 <= ii
                        < menus.value.unwrap().categories[cc].children.len()
                        && menus.value.unwrap().categories[cc].children[ii].query_id@ == qid@
                        && crate::qu::same_item(
                        menus.value.unwrap().categories[cc].children[ii],
                        found,
                    ));
                    assert(menu_has_query_id(*menus, qid@));
                    assert(menu_id_match(*menus, qid@, found));
                }
                return Some(found);
            }
            i = i + 1;
        }
        c = c + 1;
    }
    None
}

/// Searches the tree rooted at `item` for the node indexed under this query
/// id, the root included; what it yields is content-equal to that node.
fn find_in_tree_by_query_id(item: &Item, id: &String) -> (r: Option<Item>)
    ensures
        (r is Some) <==> tree_has_query_id(*item, id@),
        r matches Some(it) ==> it.query_id@ == id@ && tree_has_id_match(*item, id@, it),
    decreases *item,
{
    if item.query_id.eq(id) {
        let found = item.duplicate();
        proof {
            assert(tree_has_id_match(*item, id@, found));
        }
        return Some(found);
    }
    let mut i: usize = 0;
    while i < item.children.len()
        invariant
            i <= item.children.len(),
            forall|j: int| 0 <= j < i ==> !tree_has_query_id(#[trigger] item.children@[j], id@),
        decreases item.children.len() - i,
    {
        match find_in_tree_by_query_id(&item.children[i], id) {
            Some(found) => {
                proof {
                    assert(tree_has_id_match(item.children@[i as int], id@, found));
                    assert(tree_has_id_match(*item, id@, found));
                }
                return Some(found);
            },
            None => {},
        }
        i = i + 1;
    }
    None
}

/// Resolves a returned point identifier to the modifier indexed under it,
/// searching every tree of the modifier catalog; what resolves is
/// content-equal to the catalog node indexed under the id.
pub fn find_modifier(modifiers: &Modifiers, id: Option<String>) -> (r: Option<Item>)
    ensures
        id is None ==> r is None,
        id matches Some(q) ==> ((r is Some) <==> catalog_has_query_id(*modifiers, q@)),
        id matches Some(q) ==> (r matches Some(it) ==> it.query_id@ == q@ && catalog_id_match(
            *modifiers,
            q@,
            it,
        )),
{
    if id.is_none() {
        return None;
    }
    let qid: &String = id.as_ref().unwrap();
    let ghost entries = modifiers.modifiers@;
    let mut e: usize = 0;
    while e < modifiers.modifiers.len()
        invariant
            id == Some(*qid),
            e <= entries.len(),
            modifiers.modifiers@ == entries,
            forall|ee: int, t: int|
                0 <= ee < e && 0 <= t < entries[ee].1.value.len() ==> !tree_has_query_id(
                    #[trigger] entries[ee].1.value[t],
                    qid@,
                ),
        decreases entries.len() - e,
    {
        let descendants = &modifiers.modifiers[e].1;
        let mut t: usize = 0;
        while t < descendants.value.len()
            invariant
                id == Some(*qid),
                e < entries.len(),
                t <= descendants.value.len(),
                *descendants == entries[e as int].1,
                modifiers.modifiers@ == entries,
                forall|j: int|
                    0 <= j < t ==> !tree_has_query_id(
                        #[trigger] entries[e as int].1.value[j],
                        qid@,
                    ),
            decreases descendants.value.len() - t,
        {
            match find_in_tree_by_query_id(&descendants.value[t], qid) {
                Some(found) => {
                    proof {
                        let ee = e as int;
                        let tt = t as int;
                        assert(0 <= ee < modifiers.modifiers.len() && 0 <= tt
                            < modifiers.modifiers[ee].1.value.len() && tree_has_query_id(
                            modifiers.modifiers[ee].1.value[tt],
                            qid@,
                        ) && tree_has_id_match(
                            modifiers.modifiers[ee].1.value[tt],
                            qid@,
                            found,
                        ));
                        assert(catalog_has_query_id(*modifiers, qid@));
                        assert(catalog_id_match(*modifiers, qid@, found));
                    }
                    return Some(found);
                },
                None => {},
            }
            t = t + 1;
        }
        e = e + 1;
    }
    None
}


/// The identifiers of a ranked result list that resolve in the menu, in
/// rank order: absent identifiers and identifiers no menu item is indexed
/// under are dropped.
pub open spec fn spec_menu_resolvable(menus: Menus, ids: Seq<Option<String>>) -> Seq<Seq<char>>
    decreases ids.len(),
{
    if ids.len() == 0 {
        Seq::empty()
    } else {
        let rest = spec_menu_resolvable(menus, ids.drop_first());
        match ids[0] {
            Some(q) => if menu_has_query_id(menus, q@) {
                seq![q@] + rest
            } else {
                rest
            },
            None => rest,
        }
    }
}

/// Resolves a ranked list of returned point identifiers against the menu:
/// one item per resolvable identifier, in rank order, unresolvable points
/// dropped.  Every returned item is content-equal to the menu item indexed
/// under its identifier.
pub fn resolve_menu_results(menus: &Menus, ids: Vec<Option<String>>) -> (r: Vec<Item>)
    requires
        menus.value is Some,
    ensures
        r@.map_values(|it: Item| it.query_id@) == spec_menu_resolvable(*menus, ids@),
        forall|k: int|
            0 <= k < r@.len() ==> menu_id_match(*menus, #[trigger] r@[k].query_id@, r@[k]),
{
    let mut items: Vec<Item> = Vec::new();
    let mut i: usize = 0;
    proof {
        assert(ids@.skip(0) =~= ids@);
        assert(items@.map_values(|it: Item| it.query_id@) =~= Seq::<Seq<char>>::empty());
        assert(Seq::<Seq<char>>::empty() + spec_menu_resolvable(*menus, ids@)
            =~= spec_menu_resolvable(*menus, ids@));
    }
    while i < ids.len()
        invariant
            i <= ids@.len(),
            menus.value is Some,
            items@.map_values(|it: Item| it.query_id@) + spec_menu_resolvable(
                *menus,
                ids@.skip(i as int),
            ) =~= spec_menu_resolvable(*menus, ids@),
            forall|k: int|
                0 <= k < items@.len() ==> menu_id_match(
                    *menus,
                    #[trigger] items@[k].query_id@,
                    items@[k],
                ),
        decreases ids@.len() - i,
    {
        let ghost pre = items@.map_values(|it: Item| it.query_id@);
        let id = match &ids[i] {
            Some(s) => Some(s.clone()),
            None => None,
        };
        proof {
            assert(id == ids@[i as int]);
            assert(ids@.skip(i as int)[0] == ids@[i as int]);
            assert(ids@.skip(i as int).drop_first() =~= ids@.skip(i as int + 1));
        }
        match find_item(menus, id) {
            Some(it) => {
                items.push(it);
                proof {
                    assert(items@.map_values(|x: Item| x.query_id@) =~= pre.push(it.query_id@));
                }
            },
            None => {},
        }
        i = i + 1;
    }
    proof {
        assert(ids@.skip(ids@.len() as int) =~= Seq::<Option<String>>::empty());
        assert(items@.map_values(|it: Item| it.query_id@) + Seq::<Seq<char>>::empty()
            =~= items@.map_values(|it: Item| it.query_id@));
    }
    items
}

/// The identifiers of a ranked result list that resolve in the modifier
/// catalog, in rank order.
pub open spec fn spec_catalog_resolvable(modifiers: Modifiers, ids: Seq<Option<String>>) -> Seq<
    Seq<char>,
>
    decreases ids.len(),
{
    if ids.len() == 0 {
        Seq::empty()
    } else {
        let rest = spec_catalog_resolvable(modifiers, ids.drop_first());
        match ids[0] {
            Some(q) => if catalog_has_query_id(modifiers, q@) {
                seq![q@] + rest
            } else {
                rest
            },
            None => rest,
        }
    }
}

/// Resolves a ranked list of returned point identifiers against the
/// modifier catalog: one node per resolvable identifier, in rank order,
/// unresolvable points dropped; each returned node is content-equal to the
/// catalog node indexed under its identifier.
pub fn resolve_modifier_results(modifiers: &Modifiers, ids: Vec<Option<String>>) -> (r: Vec<Item>)
    ensures
        r@.map_values(|it: Item| it.query_id@) == spec_catalog_resolvable(*modifiers, ids@),
        forall|k: int|
            0 <= k < r@.len() ==> catalog_id_match(*modifiers, #[trigger] r@[k].query_id@, r@[k]),
{
    let mut items: Vec<Item> = Vec::new();
    let mut i: usize = 0;
    proof {
        assert(ids@.skip(0) =~= ids@);
        assert(items@.map_values(|it: Item| it.query_id@) =~= Seq::<Seq<char>>::empty());
        assert(Seq::<Seq<char>>::empty() + spec_catalog_resolvable(*modifiers, ids@)
            =~= spec_catalog_resolvable(*modifiers, ids@));
    }
    while i < ids.len()
        invariant
            i <= ids@.len(),
            items@.map_values(|it: Item| it.query_id@) + spec_catalog_resolvable(
                *modifiers,
                ids@.skip(i as int),
            ) =~= spec_catalog_resolvable(*modifiers, ids@),
            forall|k: int|
                0 <= k < items@.len() ==> catalog_id_match(
                    *modifiers,
                    #[trigger] items@[k].query_id@,
                    items@[k],
                ),
        decreases ids@.len() - i,
    {
        let ghost pre = items@.map_values(|it: Item| it.query_id@);
        let id = match &ids[i] {
            Some(s) => Some(s.clone()),
            None => None,
        };
        proof {
            assert(id == ids@[i as int]);
            assert(ids@.skip(i as int)[0] == ids@[i as int]);
            assert(ids@.skip(i as int).drop_first() =~= ids@.skip(i as int + 1));
        }
        match find_modifier(modifiers, id) {
            Some(it) => {
                items.push(it);
                proof {
                    assert(items@.map_values(|x: Item| x.query_id@) =~= pre.push(it.query_id@));
                }
            },
            None => {},
        }
        i = i + 1;
    }
    proof {
        assert(ids@.skip(ids@.len() as int) =~= Seq::<Option<String>>::empty());
        assert(items@.map_values(|it: Item| it.query_id@) + Seq::<Seq<char>>::empty()
            =~= items@.map_values(|it: Item| it.query_id@));
    }
    items
}

} // verus!
