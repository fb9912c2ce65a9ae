//! What holds of the service across its requests: what one request shows of
//! the effect of another.

use crate::dispatch::list_reply;
use crate::error::PostError;
use crate::pagination::{
    lemma_page_count_is_ceiling, lemma_page_len, lemma_page_row, lemma_pages_in_range,
    lemma_row_on_page, page_count, page_holding, page_start, place_on_page, Params,
};
use crate::post::{FormView, PostView};
use crate::startup::Startup;
use crate::table::TableView;
use vstd::prelude::*;

verus! {

/// Every request leaves a table a table, whether it succeeds or fails:
/// identifiers stay positive, distinct and in ascending order, and none exceeds
/// the last one assigned.
pub proof fn law_requests_keep_the_table(table: TableView, id: int, form: FormView)
    requires
        table.wf(),
    ensures
        table.after_create(form).wf(),
        table.after_update(id, form).wf(),
        table.after_delete(id).wf(),
{
    if table.has_room() {
        table.lemma_create(form);
    }
    if table.has_id(id) {
        table.lemma_update(id, form);
        table.lemma_delete(id);
    }
}

/// The page count is the number of rows divided by the page size, rounded up:
/// that many pages have room for all the rows, and no smaller number has.
pub proof fn law_page_count_is_ceiling(total: int, page_size: int, pages: int)
    requires
        total >= 0,
        page_size >= 1,
    ensures
        page_count(total, page_size) * page_size >= total,
        pages * page_size >= total ==> pages >= page_count(total, page_size),
{
    lemma_page_count_is_ceiling(total, page_size);
    let count = page_count(total, page_size);
    if pages * page_size >= total && pages < count {
        assert(pages * page_size <= (count - 1) * page_size) by (nonlinear_arith)
            requires
                pages <= count - 1,
                page_size >= 1,
        ;
        assert(pages * page_size < 0) by (nonlinear_arith)
            requires
                pages < 0,
                page_size >= 1,
        ;
    }
}

/// A post that was created is listed under the identifier that the create
/// returned. The identifier is fresh: no row carried it before. The post stands
/// on the last page, the one that the number of rows before it names, and on
/// no other.
pub proof fn law_created_post_is_listed(table: TableView, form: FormView, page_size: int)
    requires
        table.wf(),
        table.has_room(),
        page_size >= 1,
    ensures
        table.create_outcome(form) == Ok::<PostView, PostError>(form.with_id(table.next_id())),
        !table.has_id(table.next_id()),
        table.after_create(form).page(
            page_holding(table.rows.len() as int, page_size),
            page_size,
        ).contains(form.with_id(table.next_id())),
        table.after_create(form).pages(page_size) == page_holding(
            table.rows.len() as int,
            page_size,
        ),
        forall|page: int, k: int|
            0 <= k < table.after_create(form).page(page, page_size).len() && (
            #[trigger] table.after_create(form).page(page, page_size)[k]).id == table.next_id()
                ==> page == page_holding(table.rows.len() as int, page_size),
{
    let after = table.after_create(form);
    let post = form.with_id(table.next_id());
    let at = table.rows.len() as int;
    let page = page_holding(at, page_size);
    table.lemma_create(form);
    assert(after.rows[at] == post);
    lemma_row_on_page(after.rows, at, page_size);
    assert(after.page(page, page_size)[place_on_page(at, page_size)] == post);
    assert(page * page_size >= at + 1) by (nonlinear_arith)
        requires
            at >= 0,
            page_size >= 1,
            page == at / page_size + 1,
    ;
    lemma_pages_in_range(at + 1, page + 1, page_size);
    assert forall|other: int, k: int|
        0 <= k < after.page(other, page_size).len() && (#[trigger] after.page(
            other,
            page_size,
        )[k]).id == table.next_id() implies other == page by {
        lemma_page_row(after.rows, other, page_size, k);
        let found = page_start(other, page_size) + k;
        after.lemma_position(found);
        assert(found == at);
        lemma_page_len(after.rows, other, page_size);
        assert(other == page) by (nonlinear_arith)
            requires
                at == (other - 1) * page_size + k,
                0 <= k < page_size,
                page == at / page_size + 1,
                page_size >= 1,
        ;
    }
}

/// A request that names an identifier which no row carries fails with not
/// found, whether it is an update or a delete, and changes nothing.
pub proof fn law_unknown_id_is_not_found(table: TableView, id: int, form: FormView)
    requires
        !table.has_id(id),
    ensures
        table.update_outcome(id, form) == Err::<PostView, PostError>(PostError::NotFound),
        table.delete_outcome(id) == Err::<(), PostError>(PostError::NotFound),
        table.after_update(id, form) == table,
        table.after_delete(id) == table,
{
}

/// An update or a delete of an identifier that a row carries succeeds.
pub proof fn law_known_id_is_found(table: TableView, id: int, form: FormView)
    requires
        table.has_id(id),
    ensures
        table.update_outcome(id, form) == Ok::<PostView, PostError>(form.with_id(id)),
        table.delete_outcome(id) == Ok::<(), PostError>(()),
{
}

/// Deleting is not idempotent: once a delete has run, the same delete again
/// fails with not found, and changes nothing.
pub proof fn law_second_delete_fails(table: TableView, id: int)
    requires
        table.wf(),
    ensures
        table.after_delete(id).delete_outcome(id) == Err::<(), PostError>(PostError::NotFound),
        table.after_delete(id).after_delete(id) == table.after_delete(id),
{
    if table.has_id(id) {
        table.lemma_delete(id);
    }
}

/// A listing request that names no parameter is answered as the request for
/// page 1 with five posts a page is.
pub proof fn law_defaults_are_first_page_of_five(table: TableView)
    ensures
        list_reply(table, Params { page: None, posts_per_page: None }) == list_reply(
            table,
            Params { page: Some(1), posts_per_page: Some(5) },
        ),
        list_reply(table, Params { page: None, posts_per_page: None }) == Ok::<
            Seq<PostView>,
            PostError,
        >(table.page(1, 5)),
{
}

/// A listing request with an absent parameter is answered as the request that
/// names the default in its place is.
pub proof fn law_absent_parameter_is_its_default(table: TableView, params: Params)
    ensures
        list_reply(table, params) == list_reply(
            table,
            Params {
                page: Some(params.effective_page()),
                posts_per_page: Some(params.effective_posts_per_page()),
            },
        ),
{
}

/// A listing never holds more posts than the page size, and the pages that hold
/// posts are those from 1 to the page count.
pub proof fn law_listing_is_bounded(table: TableView, page: int, page_size: int)
    requires
        page_size >= 1,
    ensures
        table.page(page, page_size).len() <= page_size,
        table.page(page, page_size).len() > 0 <==> 1 <= page <= table.pages(page_size),
{
    lemma_page_len(table.rows, page, page_size);
    lemma_pages_in_range(table.rows.len() as int, page, page_size);
}

/// A post that was updated is listed with its new fields under its old
/// identifier, on the page and in the place where it stood. Every listing shows
/// the same identifiers in the same places as before, and the same number of
/// pages.
pub proof fn law_updated_post_is_listed(table: TableView, id: int, form: FormView, page_size: int)
    requires
        table.wf(),
        table.has_id(id),
        page_size >= 1,
    ensures
        table.after_update(id, form).pages(page_size) == table.pages(page_size),
        place_on_page(table.position(id), page_size) < table.after_update(id, form).page(
            page_holding(table.position(id), page_size),
            page_size,
        ).len(),
        table.after_update(id, form).page(
            page_holding(table.position(id), page_size),
            page_size,
        )[place_on_page(table.position(id), page_size)] == form.with_id(id),
        forall|page: int|
            (#[trigger] table.after_update(id, form).page(page, page_size)).len() == table.page(
                page,
                page_size,
            ).len(),
        forall|page: int, k: int|
            0 <= k < table.page(page, page_size).len() ==> (#[trigger] table.after_update(
                id,
                form,
            ).page(page, page_size)[k]).id == table.page(page, page_size)[k].id,
{
    let after = table.after_update(id, form);
    let at = table.position(id);
    table.lemma_update(id, form);
    table.lemma_row(id);
    after.lemma_row(id);
    lemma_row_on_page(after.rows, at, page_size);
    assert forall|page: int, k: int| 0 <= k < table.page(page, page_size).len() implies (
    #[trigger] after.page(page, page_size)[k]).id == table.page(page, page_size)[k].id by {
        lemma_page_row(table.rows, page, page_size, k);
        lemma_page_row(after.rows, page, page_size, k);
    }
}

/// Of two updates of the same post the later one wins: the table is as if the
/// earlier one had not run.
pub proof fn law_last_update_wins(table: TableView, id: int, first: FormView, second: FormView)
    requires
        table.wf(),
    ensures
        table.after_update(id, first).after_update(id, second) == table.after_update(id, second),
{
    if table.has_id(id) {
        table.lemma_update(id, first);
        table.lemma_row(id);
        assert(table.after_update(id, first).after_update(id, second).rows
            =~= table.after_update(id, second).rows);
    }
}

/// Updates of different posts do not disturb each other: in whichever order
/// they run, the table ends the same.
pub proof fn law_updates_of_different_posts_commute(
    table: TableView,
    a: int,
    form_a: FormView,
    b: int,
    form_b: FormView,
)
    requires
        table.wf(),
        a != b,
    ensures
        table.after_update(a, form_a).after_update(b, form_b) == table.after_update(
            b,
            form_b,
        ).after_update(a, form_a),
{
    if table.has_id(a) {
        table.lemma_update(a, form_a);
        table.lemma_row(a);
    }
    if table.has_id(b) {
        table.lemma_update(b, form_b);
        table.lemma_row(b);
    }
    assert(table.after_update(a, form_a).after_update(b, form_b).rows =~= table.after_update(
        b,
        form_b,
    ).after_update(a, form_a).rows);
}

/// A store is ready only after all four steps of startup went well, in their
/// order: one failure among them, and it never is.
pub proof fn law_ready_needs_every_step(outcomes: Seq<bool>)
    ensures
        Startup::ResolvingHome.after_all(outcomes) == Startup::Ready <==> outcomes.len() >= 4
            && outcomes[0] && outcomes[1] && outcomes[2] && outcomes[3],
{
    let first = Startup::ResolvingHome;
    if outcomes.len() >= 1 {
        let second = first.after(outcomes[0]);
        let rest1 = outcomes.drop_first();
        if rest1.len() >= 1 {
            let third = second.after(rest1[0]);
            let rest2 = rest1.drop_first();
            if rest2.len() >= 1 {
                let fourth = third.after(rest2[0]);
                let rest3 = rest2.drop_first();
                if rest3.len() >= 1 {
                    let fifth = fourth.after(rest3[0]);
                    law_last_states_are_final(fifth, rest3.drop_first());
                    assert(fourth.after_all(rest3) == fifth.after_all(rest3.drop_first()));
                }
                assert(third.after_all(rest2) == fourth.after_all(rest3));
            }
            assert(second.after_all(rest1) == third.after_all(rest2));
        }
        assert(first.after_all(outcomes) == second.after_all(rest1));
    }
}

/// Readiness and failure are final: whatever is reported afterwards, a ready
/// store stays ready and a failed startup stays failed, with its error.
pub proof fn law_last_states_are_final(state: Startup, outcomes: Seq<bool>)
    requires
        state is Ready || state is Failed,
    ensures
        state.after_all(outcomes) == state,
    decreases outcomes.len(),
{
    if outcomes.len() > 0 {
        law_last_states_are_final(state, outcomes.drop_first());
    }
}

/// The only way into readiness is a migration that went well.
pub proof fn law_ready_only_after_migration(state: Startup, succeeded: bool)
    requires
        state.after(succeeded) == Startup::Ready,
    ensures
        state == Startup::Ready || (state == Startup::Migrating && succeeded),
{
}

} // verus!
