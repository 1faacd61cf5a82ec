//! Catalog and order types of the order backend, and the lookups the
//! function-call router makes against the cached catalog.
//!
//! The menu is a two-level structure of categories and their items; the
//! modifier catalog maps each top-level item to the tree of modifiers that
//! may be applied beneath it.  Item identifiers returned by search are
//! resolved against these cached structures before any order mutation is
//! attempted.  Fetching the catalog from the backend is I/O and lives with
//! the caller.

use vstd::prelude::*;

verus! {

/// One menu or modifier node: its display data, its path key and the
/// children nested beneath it.
pub struct Item {
    pub title: String,
    pub item_path_key: String,
    pub parent_path_key: String,
    pub display_attribute: DisplayAttribute,
    pub children: Vec<Item>,
    pub query_id: String,
}

pub struct DisplayAttribute {
    pub description: Option<String>,
}

/// The menu envelope as the order backend returns it.
pub struct Menus {
    pub value: Option<MenusValue>,
    pub succeed: Option<bool>,
    pub errors: Option<Vec<QuError>>,
}

pub struct QuError {
    pub code: i32,
    pub key: String,
    pub message: String,
}

pub struct MenusValue {
    pub snapshot_id: String,
    pub categories: Vec<Item>,
}

/// The modifier tree available beneath one top-level item.
pub struct Descendants {
    pub value: Vec<Item>,
}

pub struct DescendantsValue {
    pub children: Vec<Item>,
}

/// The cached modifier catalog: one entry per top-level item, keyed by that
/// item's path key.  The backend hands the catalog over as an unordered
/// map; it is held here as a keyed list, since only membership matters.
pub struct Modifiers {
    pub modifiers: Vec<(String, Descendants)>,
}

/// The new-order envelope as the order backend returns it.
pub struct Orders {
    pub value: OrdersValue,
}

pub struct OrdersValue {
    pub order: Order,
}

pub struct Order {
    pub id: String,
}

/// Whether `key` names `item` itself or any node nested beneath it.
pub open spec fn tree_contains(item: Item, key: Seq<char>) -> bool
    decreases item,
{
    item.item_path_key@ == key || exists|i: int|
        0 <= i < item.children.len() && tree_contains(#[trigger] item.children[i], key)
}

/// The number of nodes of the tree rooted at `item`, the root included.
pub open spec fn spec_tree_size(item: Item) -> nat
    decreases item,
{
    1 + spec_forest_size(item.children@)
}

pub open spec fn spec_forest_size(items: Seq<Item>) -> nat
    decreases items,
{
    if items.len() == 0 {
        0
    } else {
        spec_tree_size(items[0]) + spec_forest_size(items.drop_first())
    }
}

proof fn lemma_forest_size_take(items: Seq<Item>, i: int)
    requires
        0 <= i < items.len(),
    ensures
        spec_forest_size(items.take(i + 1)) == spec_forest_size(items.take(i)) + spec_tree_size(
            items[i],
        ),
    decreases i,
{
    if i == 0 {
        assert(items.take(0) =~= Seq::<Item>::empty());
        assert(items.take(1).drop_first() =~= Seq::<Item>::empty());
        assert(items.take(1)[0] == items[0]);
    } else {
        assert(items.take(i + 1).drop_first() =~= items.drop_first().take(i));
        assert(items.take(i).drop_first() =~= items.drop_first().take(i - 1));
        lemma_forest_size_take(items.drop_first(), i - 1);
        assert(items.drop_first()[i - 1] == items[i]);
        assert(items.take(i + 1)[0] == items[0]);
        assert(items.take(i)[0] == items[0]);
    }
}

proof fn lemma_forest_prefix_le(items: Seq<Item>, k: int)
    requires
        0 <= k <= items.len(),
    ensures
        spec_forest_size(items.take(k)) <= spec_forest_size(items),
    decreases items.len() - k,
{
    if k == items.len() {
        assert(items.take(k) =~= items);
    } else {
        lemma_forest_size_take(items, k);
        lemma_forest_prefix_le(items, k + 1);
    }
}

/// Counts the nodes nested beneath `item`, the root itself not included.
pub fn count_children(item: Item) -> (n: u64)
    requires
        spec_tree_size(item) <= u64::MAX,
    ensures
        n as nat == spec_tree_size(item) - 1,
{
    let n = tree_size(&item);
    n - 1
}

/// The number of nodes of the tree rooted at `item`, the root included.
fn tree_size(item: &Item) -> (n: u64)
    requires
        spec_tree_size(*item) <= u64::MAX,
    ensures
        n as nat == spec_tree_size(*item),
    decreases *item,
{
    let mut n: u64 = 1;
    let mut i: usize = 0;
    while i < item.children.len()
        invariant
            i <= item.children.len(),
            spec_tree_size(*item) <= u64::MAX,
            n as nat == 1 + spec_forest_size(item.children@.take(i as int)),
        decreases item.children.len() - i,
    {
        proof {
            lemma_forest_size_take(item.children@, i as int);
            lemma_forest_prefix_le(item.children@, i as int + 1);
        }
        let c = tree_size(&item.children[i]);
        n = n + c;
        i = i + 1;
    }
    proof {
        assert(item.children@.take(item.children@.len() as int) =~= item.children@);
    }
    n
}

/// Whether two optional strings carry the same text.
pub open spec fn same_opt_string(a: Option<String>, b: Option<String>) -> bool {
    match (a, b) {
        (Some(x), Some(y)) => x@ == y@,
        (None, None) => true,
        _ => false,
    }
}

/// Whether two items carry the same content, node for node.
pub open spec fn same_item(a: Item, b: Item) -> bool
    decreases a,
{
    &&& a.title@ == b.title@
    &&& a.item_path_key@ == b.item_path_key@
    &&& a.parent_path_key@ == b.parent_path_key@
    &&& same_opt_string(a.display_attribute.description, b.display_attribute.description)
    &&& a.query_id@ == b.query_id@
    &&& a.children.len() == b.children.len()
    &&& forall|i: int|
        0 <= i < a.children.len() ==> same_item(#[trigger] a.children[i], b.children[i])
}

impl Item {
    /// A deep copy that provably carries the same content.
    pub fn duplicate(&self) -> (r: Item)
        ensures
            same_item(*self, r),
        decreases *self,
    {
        let mut children: Vec<Item> = Vec::new();
        let mut i: usize = 0;
        while i < self.children.len()
            invariant
                i <= self.children.len(),
                children@.len() == i,
                forall|j: int|
                    0 <= j < i ==> same_item(#[trigger] self.children@[j], children@[j]),
            decreases self.children.len() - i,
        {
            let child = self.children[i].duplicate();
            children.push(child);
            i = i + 1;
        }
        Item {
            title: self.title.clone(),
            item_path_key: self.item_path_key.clone(),
            parent_path_key: self.parent_path_key.clone(),
            display_attribute: DisplayAttribute {
                description: match &self.display_attribute.description {
                    Some(d) => Some(d.clone()),
                    None => None,
                },
            },
            children,
            query_id: self.query_id.clone(),
        }
    }
}

/// Whether a top-level menu item with this path key exists: the menu is
/// searched one category level deep, as lookups against it always are.
pub open spec fn menu_has_item(menus: Menus, key: Seq<char>) -> bool {
    exists|c: int, i: int|
        0 <= c < menus.value.unwrap().categories.len() && 0 <= i
            < menus.value.unwrap().categories[c].children.len()
            && menus.value.unwrap().categories[c].children[i].item_path_key@ == key
}

/// Whether `it` is content-equal to a top-level menu item carrying `key`.
pub open spec fn menu_item_match(menus: Menus, key: Seq<char>, it: Item) -> bool {
    exists|c: int, i: int|
        0 <= c < menus.value.unwrap().categories.len() && 0 <= i
            < menus.value.unwrap().categories[c].children.len()
            && menus.value.unwrap().categories[c].children[i].item_path_key@ == key && same_item(
            menus.value.unwrap().categories[c].children[i],
            it,
        )
}

/// Looks a top-level menu item up by its path key: the categories are
/// scanned in order, then each category's items.  Yields exactly when a
/// matching item exists, and what it yields is content-equal to a menu item
/// carrying the requested key.
pub fn find_item(menus: &Menus, item_path_key: String) -> (r: Option<Item>)
    requires
        menus.value is Some,
    ensures
        (r is Some) <==> menu_has_item(*menus, item_path_key@),
        r matches Some(it) ==> it.item_path_key@ == item_path_key@ && menu_item_match(
            *menus,
            item_path_key@,
            it,
        ),
{
    let value = menus.value.as_ref().unwrap();
    let ghost cats = value.categories@;
    let mut c: usize = 0;
    while c < value.categories.len()
        invariant
            c <= cats.len(),
            value.categories@ == cats,
            menus.value == Some(*value),
            forall|cc: int, i: int|
                0 <= cc < c && 0 <= i < cats[cc].children.len()
                    ==> cats[cc].children[i].item_path_key@ != item_path_key@,
        decreases cats.len() - c,
    {
        let category = &value.categories[c];
        let mut i: usize = 0;
        while i < category.children.len()
            invariant
                c < cats.len(),
                i <= category.children.len(),
                *category == cats[c as int],
                menus.value == Some(*value),
                value.categories@ == cats,
                forall|j: int|
                    0 <= j < i ==> cats[c as int].children[j].item_path_key@ != item_path_key@,
            decreases category.children.len() - i,
        {
            if category.children[i].item_path_key.eq(&item_path_key) {
                let found = category.children[i].duplicate();
                proof {
                    let cc = c as int;
                    let ii = i as int;
                    assert(0 <= cc < menus.value.unwrap().categories.len() && 0 <= ii
                        < menus.value.unwrap().categories[cc].children.len()
                        && menus.value.unwrap().categories[cc].children[ii].item_path_key@
                        == item_path_key@ && same_item(
                        menus.value.unwrap().categories[cc].children[ii],
                        found,
                    ));
                    assert(menu_has_item(*menus, item_path_key@));
                    assert(menu_item_match(*menus, item_path_key@, found));
                }
                return Some(found);
            }
            i = i + 1;
        }
        c = c + 1;
    }
    None
}

/// Whether `it` is content-equal to a node carrying `key` in the tree
/// rooted at `item`, the root included.
pub open spec fn tree_has_match(item: Item, key: Seq<char>, it: Item) -> bool
    decreases item,
{
    (item.item_path_key@ == key && same_item(item, it)) || exists|i: int|
        0 <= i < item.children.len() && tree_has_match(#[trigger] item.children[i], key, it)
}

/// Searches the tree rooted at `item` for a node with this path key, the
/// root included.  Yields exactly when such a node exists, and what it
/// yields is content-equal to a node of the tree carrying the requested
/// key.
pub fn find_in_tree(item: &Item, item_path_key: &String) -> (r: Option<Item>)
    ensures
        (r is Some) <==> tree_contains(*item, item_path_key@),
        r matches Some(it) ==> it.item_path_key@ == item_path_key@ && tree_has_match(
            *item,
            item_path_key@,
            it,
        ),
    decreases *item,
{
    if item.item_path_key.eq(item_path_key) {
        let found = item.duplicate();
        proof {
            assert(tree_has_match(*item, item_path_key@, found));
        }
        return Some(found);
    }
    let mut i: usize = 0;
    while i < item.children.len()
        invariant
            i <= item.children.len(),
            forall|j: int|
                0 <= j < i ==> !tree_contains(#[trigger] item.children@[j], item_path_key@),
        decreases item.children.len() - i,
    {
        match find_in_tree(&item.children[i], item_path_key) {
            Some(found) => {
                proof {
                    assert(tree_has_match(item.children@[i as int], item_path_key@, found));
                    assert(tree_has_match(*item, item_path_key@, found));
                }
                return Some(found);
            },
            None => {},
        }
        i = i + 1;
    }
    None
}

/// Whether any modifier tree of the catalog holds a node with this key.
pub open spec fn catalog_has_modifier(modifiers: Modifiers, key: Seq<char>) -> bool {
    exists|e: int, t: int|
        0 <= e < modifiers.modifiers.len() && 0 <= t < modifiers.modifiers[e].1.value.len()
            && tree_contains(modifiers.modifiers[e].1.value[t], key)
}

/// Whether `it` is content-equal to a node carrying `key` in some tree of
/// the modifier catalog.
pub open spec fn catalog_modifier_match(modifiers: Modifiers, key: Seq<char>, it: Item) -> bool {
    exists|e: int, t: int|
        0 <= e < modifiers.modifiers.len() && 0 <= t < modifiers.modifiers[e].1.value.len()
            && tree_has_match(modifiers.modifiers[e].1.value[t], key, it)
}

/// Resolves a modifier by path key against the cached modifier catalog,
/// searching every tree beneath every top-level item.  Yields exactly when
/// a matching node exists, and what it yields is content-equal to a catalog
/// node carrying the requested key.
pub fn find_modifier(modifiers: &Modifiers, item_path_key: String) -> (r: Option<Item>)
    ensures
        (r is Some) <==> catalog_has_modifier(*modifiers, item_path_key@),
        r matches Some(it) ==> it.item_path_key@ == item_path_key@ && catalog_modifier_match(
            *modifiers,
            item_path_key@,
            it,
        ),
{
    let ghost entries = modifiers.modifiers@;
    let mut e: usize = 0;
    while e < modifiers.modifiers.len()
        invariant
            e <= entries.len(),
            modifiers.modifiers@ == entries,
            forall|ee: int, t: int|
                0 <= ee < e && 0 <= t < entries[ee].1.value.len()
                    ==> !tree_contains(#[trigger] entries[ee].1.value[t], item_path_key@),
        decreases entries.len() - e,
    {
        let descendants = &modifiers.modifiers[e].1;
        let mut t: usize = 0;
        while t < descendants.value.len()
            invariant
                e < entries.len(),
                t <= descendants.value.len(),
                *descendants == entries[e as int].1,
                modifiers.modifiers@ == entries,
                forall|j: int|
                    0 <= j < t ==> !tree_contains(
                        #[trigger] entries[e as int].1.value[j],
                        item_path_key@,
                    ),
            decreases descendants.value.len() - t,
        {
            match find_in_tree(&descendants.value[t], &item_path_key) {
                Some(found) => {
                    proof {
                        let ee = e as int;
                        let tt = t as int;
                        assert(0 <= ee < modifiers.modifiers.len() && 0 <= tt
                            < modifiers.modifiers[ee].1.value.len()
                            && tree_contains(modifiers.modifiers[ee].1.value[tt], item_path_key@)
                            && tree_has_match(
                            modifiers.modifiers[ee].1.value[tt],
                            item_path_key@,
                            found,
                        ));
                        assert(catalog_has_modifier(*modifiers, item_path_key@));
                        assert(catalog_modifier_match(*modifiers, item_path_key@, found));
                    }
                    return Some(found);
                },
                None => {},
            }
            t = t + 1;
        }
        e = e + 1;
    }
    None
}

} // verus!
