//! Menus: the items a caller asks for, and the order in which a menu level
//! gets them. Items with a special role (options, help) go after all the
//! others, options first, each group in the order it was given.
use vstd::prelude::*;

verus! {

/// Where a platform puts a menu item.
#[derive(Clone, Copy, Debug, PartialEq, Eq, Structural)]
pub enum MenuRole {
    Regular,
    Options,
    Help,
}

/// An item of a menu: an action with its label, a submenu, or a separator.
/// `A` is what runs when the action is chosen.
pub enum MenuItem<A> {
    Action(String, A, MenuRole),
    Sub(String, Vec<MenuItem<A>>, MenuRole),
    Delimiter,
}

/// Whether `item` is an action or a submenu with role `role`; a separator has
/// no role.
pub open spec fn role_is<A>(item: MenuItem<A>, role: MenuRole) -> bool {
    match item {
        MenuItem::Action(_, _, r) => r == role,
        MenuItem::Sub(_, _, r) => r == role,
        MenuItem::Delimiter => false,
    }
}

/// Which group of a level an item goes in: 0 for plain items and separators,
/// 1 for options, 2 for help.
pub open spec fn rank<A>(item: MenuItem<A>) -> int {
    match item {
        MenuItem::Action(_, _, role) | MenuItem::Sub(_, _, role) => match role {
            MenuRole::Regular => 0,
            MenuRole::Options => 1,
            MenuRole::Help => 2,
        },
        MenuItem::Delimiter => 0,
    }
}

/// The items of `items` that belong to group `group`, in order.
pub open spec fn group<A>(items: Seq<MenuItem<A>>, group: int) -> Seq<MenuItem<A>> {
    items.filter(|item: MenuItem<A>| rank(item) == group)
}

/// The order in which a menu level gets its items: the plain items and
/// separators, then the options, then the help items.
pub open spec fn arranged<A>(items: Seq<MenuItem<A>>) -> Seq<MenuItem<A>> {
    group(items, 0) + group(items, 1) + group(items, 2)
}

/// The group an item goes in.
fn rank_of<A>(item: &MenuItem<A>) -> (r: u8)
    ensures
        r == rank(*item),
{
    match item {
        MenuItem::Action(_, _, role) | MenuItem::Sub(_, _, role) => match role {
            MenuRole::Regular => 0,
            MenuRole::Options => 1,
            MenuRole::Help => 2,
        },
        MenuItem::Delimiter => 0,
    }
}

proof fn lemma_group_push<A>(items: Seq<MenuItem<A>>, item: MenuItem<A>, g: int)
    ensures
        group(items.push(item), g) == if rank(item) == g {
            group(items, g).push(item)
        } else {
            group(items, g)
        },
{
    reveal(Seq::filter);
    assert(items.push(item).drop_last() =~= items);
}

/// Puts the items of one menu level in the order the level gets them:
/// plain items and separators where they are, then options, then help.
pub fn arrange_level<A>(items: Vec<MenuItem<A>>) -> (r: Vec<MenuItem<A>>)
    ensures
        r@ == arranged(items@),
        r@.len() == items@.len(),
        forall|i: int| 0 <= i < items@.len() ==> r@.contains(#[trigger] items@[i]),
        forall|i: int, j: int|
            0 <= i < j < r@.len() && role_is(#[trigger] r@[i], MenuRole::Help) ==> role_is(
                #[trigger] r@[j],
                MenuRole::Help,
            ),
        forall|i: int, j: int|
            0 <= i < j < r@.len() && role_is(#[trigger] r@[i], MenuRole::Options) ==> role_is(
                #[trigger] r@[j],
                MenuRole::Options,
            ) || role_is(r@[j], MenuRole::Help),
{
    let ghost original = items@;
    let mut items = items;
    let n = items.len();
    let mut plain: Vec<MenuItem<A>> = Vec::new();
    let mut options: Vec<MenuItem<A>> = Vec::new();
    let mut help: Vec<MenuItem<A>> = Vec::new();
    let mut k: usize = 0;
    proof {
        reveal(Seq::filter);
        assert(original.take(0) =~= Seq::<MenuItem<A>>::empty());
    }
    while items.len() > 0
        invariant
            k + items@.len() == original.len(),
            original.len() == n,
            items@ == original.skip(k as int),
            plain@ == group(original.take(k as int), 0),
            options@ == group(original.take(k as int), 1),
            help@ == group(original.take(k as int), 2),
        decreases items@.len(),
    {
        let item = items.remove(0);
        proof {
            assert(item == original[k as int]);
            assert(original.take(k + 1) =~= original.take(k as int).push(item));
            lemma_group_push(original.take(k as int), item, 0);
            lemma_group_push(original.take(k as int), item, 1);
            lemma_group_push(original.take(k as int), item, 2);
            assert(items@ =~= original.skip(k + 1));
        }
        let r = rank_of(&item);
        if r == 0 {
            plain.push(item);
        } else if r == 1 {
            options.push(item);
        } else {
            help.push(item);
        }
        k = k + 1;
    }
    assert(original.take(k as int) =~= original);
    plain.append(&mut options);
    plain.append(&mut help);
    proof {
        lemma_roles_ordered(original);
    }
    plain
}

proof fn lemma_groups_cover<A>(items: Seq<MenuItem<A>>)
    ensures
        group(items, 0).len() + group(items, 1).len() + group(items, 2).len() == items.len(),
    decreases items.len(),
{
    if items.len() > 0 {
        let shorter = items.drop_last();
        lemma_groups_cover(shorter);
        assert(shorter.push(items.last()) =~= items);
        lemma_group_push(shorter, items.last(), 0);
        lemma_group_push(shorter, items.last(), 1);
        lemma_group_push(shorter, items.last(), 2);
    } else {
        reveal(Seq::filter);
    }
}

/// A law of menu levels: the arranged level holds as many items as were given,
/// every given item is in it, and no item of a later group comes before one
/// of an earlier group.
pub proof fn lemma_arranged_level<A>(items: Seq<MenuItem<A>>)
    ensures
        arranged(items).len() == items.len(),
        forall|i: int| 0 <= i < items.len() ==> arranged(items).contains(#[trigger] items[i]),
        forall|i: int, j: int|
            0 <= i < j < items.len() ==> rank(#[trigger] arranged(items)[i]) <= rank(
                #[trigger] arranged(items)[j],
            ),
{
    broadcast use vstd::seq_lib::group_filter_ensures;

    lemma_groups_cover(items);
    let a = arranged(items);
    let g0 = group(items, 0);
    let g1 = group(items, 1);
    let g2 = group(items, 2);
    assert forall|i: int| 0 <= i < items.len() implies a.contains(#[trigger] items[i]) by {
        let x = items[i];
        let g = rank(x);
        assert(0 <= g <= 2) by {
            match x {
                MenuItem::Action(_, _, role) | MenuItem::Sub(_, _, role) => {},
                MenuItem::Delimiter => {},
            }
        }
        if g == 0 {
            assert(g0.contains(x));
            let k = choose|k: int| 0 <= k < g0.len() && g0[k] == x;
            assert(a[k] == x);
        } else if g == 1 {
            assert(g1.contains(x));
            let k = choose|k: int| 0 <= k < g1.len() && g1[k] == x;
            assert(a[g0.len() + k] == x);
        } else {
            assert(g2.contains(x));
            let k = choose|k: int| 0 <= k < g2.len() && g2[k] == x;
            assert(a[g0.len() + g1.len() + k] == x);
        }
    }
    assert forall|i: int, j: int| 0 <= i < j < items.len() implies rank(#[trigger] a[i]) <= rank(
        #[trigger] a[j],
    ) by {
        let ri = if i < g0.len() {
            assert(a[i] == g0[i]);
            0int
        } else if i < g0.len() + g1.len() {
            assert(a[i] == g1[i - g0.len()]);
            1int
        } else {
            assert(a[i] == g2[i - g0.len() - g1.len()]);
            2int
        };
        let rj = if j < g0.len() {
            assert(a[j] == g0[j]);
            0int
        } else if j < g0.len() + g1.len() {
            assert(a[j] == g1[j - g0.len()]);
            1int
        } else {
            assert(a[j] == g2[j - g0.len() - g1.len()]);
            2int
        };
        assert(rank(a[i]) == ri);
        assert(rank(a[j]) == rj);
    }
}

proof fn lemma_rank_by_role<A>(item: MenuItem<A>)
    ensures
        role_is(item, MenuRole::Help) <==> rank(item) == 2,
        role_is(item, MenuRole::Options) <==> rank(item) == 1,
        0 <= rank(item) <= 2,
{
}

/// A law of menu levels, stated on roles whatever the kind of item: in the
/// arranged level every item after a help item is a help item, and every
/// item after an options item is an options or a help item; it holds as
/// many items as were given, and every given item is in it.
pub proof fn lemma_roles_ordered<A>(items: Seq<MenuItem<A>>)
    ensures
        arranged(items).len() == items.len(),
        forall|i: int| 0 <= i < items.len() ==> arranged(items).contains(#[trigger] items[i]),
        forall|i: int, j: int|
            0 <= i < j < arranged(items).len() && role_is(#[trigger] arranged(items)[i], MenuRole::Help)
                ==> role_is(#[trigger] arranged(items)[j], MenuRole::Help),
        forall|i: int, j: int|
            0 <= i < j < arranged(items).len() && role_is(
                #[trigger] arranged(items)[i],
                MenuRole::Options,
            ) ==> role_is(#[trigger] arranged(items)[j], MenuRole::Options) || role_is(
                arranged(items)[j],
                MenuRole::Help,
            ),
{
    lemma_arranged_level(items);
    let a = arranged(items);
    assert forall|i: int, j: int|
        0 <= i < j < a.len() && role_is(#[trigger] a[i], MenuRole::Help) implies role_is(
            #[trigger] a[j],
            MenuRole::Help,
        ) by {
        lemma_rank_by_role(a[i]);
        lemma_rank_by_role(a[j]);
    }
    assert forall|i: int, j: int|
        0 <= i < j < a.len() && role_is(#[trigger] a[i], MenuRole::Options) implies role_is(
            #[trigger] a[j],
            MenuRole::Options,
        ) || role_is(a[j], MenuRole::Help) by {
        lemma_rank_by_role(a[i]);
        lemma_rank_by_role(a[j]);
    }
}

} // verus!
