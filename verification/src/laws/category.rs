//! What a search for a category finds.
use vstd::prelude::*;

use crate::laws::run::World;
use crate::lookup::{
    category_request, category_step, with_parent_name, CategoryLookup, CategoryStepView,
};
use crate::model::Category;
use crate::protocol::Failure;

verus! {

/// The row of the category with the given id.
pub open spec fn category_row(world: World, category_id: u32) -> Result<Category, Failure> {
    world(category_request(category_id)).category()
}

/// From this category upwards there are fewer than `n` ancestors.
pub open spec fn ancestry_ends_within(world: World, category_id: u32, n: nat) -> bool
    decreases n,
{
    n > 0 && match category_row(world, category_id) {
        Ok(row) => row.parent_id == 0 || ancestry_ends_within(
            world,
            row.parent_id,
            (n - 1) as nat,
        ),
        Err(_) => true,
    }
}

/// The parents of the category do not go round in a circle.
pub open spec fn ancestry_ends(world: World, category_id: u32) -> bool {
    exists|n: nat| ancestry_ends_within(world, category_id, n)
}

/// The category with the given id: its row, with the name of its parent where it has
/// one and the row of the parent can be read.
pub open spec fn category_in(world: World, category_id: u32) -> Result<Category, Failure> {
    match category_row(world, category_id) {
        Ok(row) => Ok(
            if row.parent_id == 0 {
                row
            } else {
                with_parent_name(
                    row,
                    match category_row(world, row.parent_id) {
                        Ok(parent) => Some(parent.category_name),
                        Err(_) => None,
                    },
                )
            },
        ),
        Err(e) => Err(e),
    }
}

/// Where a search for a category stands after at most `n` replies of the world.
pub open spec fn category_run(world: World, step: CategoryStepView, n: nat) -> CategoryStepView
    decreases n,
{
    match step {
        CategoryStepView::Ask(lookup, request) if n > 0 => category_run(
            world,
            category_step(lookup, world(request).category()),
            (n - 1) as nat,
        ),
        _ => step,
    }
}

/// What is known of a category does not change while further ancestors are looked up.
proof fn lemma_ancestors_change_nothing(
    world: World,
    category: Category,
    ancestor_id: u32,
    n: nat,
)
    requires
        ancestry_ends_within(world, ancestor_id, n),
    ensures
        category_run(
            world,
            CategoryStepView::Ask(
                CategoryLookup::Ancestor(category),
                category_request(ancestor_id),
            ),
            n,
        ) == CategoryStepView::Found(Ok(category)),
    decreases n,
{
    reveal_with_fuel(category_run, 2);
    if let Ok(row) = category_row(world, ancestor_id) {
        if row.parent_id != 0 {
            lemma_ancestors_change_nothing(world, category, row.parent_id, (n - 1) as nat);
        }
    }
}

/// A search finds the category with the name of its parent. Whatever is found above
/// the parent, or not found there, makes no difference.
pub proof fn law_category_lookup(world: World, category_id: u32, n: nat)
    requires
        ancestry_ends_within(world, category_id, n),
    ensures
        category_run(
            world,
            CategoryStepView::Ask(CategoryLookup::Own, category_request(category_id)),
            n,
        ) == CategoryStepView::Found(category_in(world, category_id)),
{
    reveal_with_fuel(category_run, 3);
    reveal_with_fuel(ancestry_ends_within, 3);
    if let Ok(row) = category_row(world, category_id) {
        if row.parent_id != 0 {
            if let Ok(parent) = category_row(world, row.parent_id) {
                if parent.parent_id != 0 {
                    lemma_ancestors_change_nothing(
                        world,
                        with_parent_name(row, Some(parent.category_name)),
                        parent.parent_id,
                        (n - 2) as nat,
                    );
                }
            }
        }
    }
}

} // verus!
