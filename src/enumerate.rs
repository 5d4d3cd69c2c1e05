//! Enumeration of the objects below a remote resource.
//!
//! A `ResourceEnumerator` decides which listing call comes next and turns each
//! answer into download messages; the caller performs the calls and hands the
//! answers back. Datasets are listed page by page with a cursor: a page that
//! holds fewer object groups than were asked for is the last one.

use crate::cli::Resource;
use crate::model::{GroupListing, ObjectDownloadMessage, ObjectRef};
use vstd::multiset::Multiset;
use vstd::prelude::*;

verus! {

/// Number of object groups asked for in one page of a dataset listing.
pub const DATASET_OBJECT_GROUP_PAGE_SIZE: u64 = 500;

/// The messages for one object group: one per object, in listing order.
pub open spec fn messages_of_group(group: GroupListing) -> Seq<ObjectDownloadMessage> {
    group.objects@.map_values(
        |o: ObjectRef| ObjectDownloadMessage { object: o, object_group_name: group.name },
    )
}

/// The messages for the first `n` object groups of a page.
pub open spec fn messages_of_groups(page: Seq<GroupListing>, n: nat) -> Seq<ObjectDownloadMessage>
    decreases n,
{
    if n == 0 || n > page.len() {
        Seq::empty()
    } else {
        messages_of_groups(page, (n - 1) as nat) + messages_of_group(page[n - 1])
    }
}

/// The messages for a page of object groups, group after group.
pub open spec fn messages_of_page(page: Seq<GroupListing>) -> Seq<ObjectDownloadMessage> {
    messages_of_groups(page, page.len())
}

/// The cursor after a page: the id of the last object listed, or the
/// previous cursor when the page lists no object.
pub open spec fn cursor_after(cursor: Seq<char>, page: Seq<GroupListing>) -> Seq<char> {
    if messages_of_page(page).len() > 0 {
        messages_of_page(page).last().object.id@
    } else {
        cursor
    }
}

/// A page ends a dataset's listing exactly when it holds fewer object groups
/// than were asked for.
pub open spec fn is_last_page(page_size: nat, page_len: nat) -> bool {
    page_len < page_size
}

/// The messages for one object group.
pub fn group_messages(group: &GroupListing) -> (r: Vec<ObjectDownloadMessage>)
    ensures
        r@ == messages_of_group(*group),
{
    let mut r: Vec<ObjectDownloadMessage> = Vec::new();
    let n = group.objects.len();
    let mut i: usize = 0;
    while i < n
        invariant
            n == group.objects@.len(),
            i <= n,
            r@ == messages_of_group(*group).subrange(0, i as int),
        decreases n - i,
    {
        let msg = ObjectDownloadMessage {
            object: group.objects[i].duplicate(),
            object_group_name: group.name.clone(),
        };
        r.push(msg);
        i = i + 1;
        assert(r@ =~= messages_of_group(*group).subrange(0, i as int));
    }
    assert(r@ =~= messages_of_group(*group));
    r
}

/// The messages for a page of object groups, together with the cursor that
/// follows the page.
pub fn page_messages(page: &Vec<GroupListing>, cursor: &String) -> (r: (
    Vec<ObjectDownloadMessage>,
    String,
))
    ensures
        r.0@ == messages_of_page(page@),
        r.1@ == cursor_after(cursor@, page@),
{
    let mut msgs: Vec<ObjectDownloadMessage> = Vec::new();
    let mut last = cursor.clone();
    let n = page.len();
    let mut i: usize = 0;
    while i < n
        invariant
            n == page@.len(),
            i <= n,
            msgs@ == messages_of_groups(page@, i as nat),
            last@ == if msgs@.len() > 0 {
                msgs@.last().object.id@
            } else {
                cursor@
            },
        decreases n - i,
    {
        let mut g = group_messages(&page[i]);
        if g.len() > 0 {
            last = g[g.len() - 1].object.id.clone();
        }
        msgs.append(&mut g);
        i = i + 1;
    }
    (msgs, last)
}

/// One page of a dataset's object-group listing, as requested.
#[derive(Clone, Debug, PartialEq, Eq)]
pub struct PageRequest {
    pub page_size: u64,
    /// Id of the last object seen so far; empty for the first page.
    pub last_uuid: String,
}

/// The listing call that an enumeration needs next.
#[derive(Clone, Debug, PartialEq, Eq)]
pub enum ListRequest {
    /// The datasets of a project.
    ProjectDatasets { project_id: String },
    /// One page of the object groups of a dataset.
    DatasetObjectGroups { dataset_id: String, page_request: PageRequest },
    /// One object group with its objects.
    ObjectGroup { object_group_id: String },
}

/// Why an enumeration cannot be started or cannot take an answer.
#[derive(Clone, Copy, Debug, PartialEq, Eq)]
pub enum EnumerateError {
    /// Dataset versions cannot be enumerated.
    UnsupportedResource,
    /// The answer does not belong to the call that was due.
    UnexpectedResponse,
}

/// Where an enumeration stands.
pub enum Phase {
    /// The datasets of the project are to be listed.
    ListDatasets { project_id: Seq<char> },
    /// The datasets are listed page by page; `next` is the one being listed.
    Pages { dataset_ids: Seq<Seq<char>>, next: nat, last_uuid: Seq<char> },
    /// The single object group is to be listed.
    ListGroup { object_group_id: Seq<char> },
    /// Nothing is left to list.
    Done,
}

/// The phase after the datasets of a project were listed.
pub open spec fn after_datasets(dataset_ids: Seq<Seq<char>>) -> Phase {
    if dataset_ids.len() == 0 {
        Phase::Done
    } else {
        Phase::Pages { dataset_ids, next: 0, last_uuid: Seq::empty() }
    }
}

/// The phase after a page of a dataset's listing.
pub open spec fn after_page(page_size: nat, phase: Phase, page: Seq<GroupListing>) -> Phase {
    match phase {
        Phase::Pages { dataset_ids, next, last_uuid } => {
            if is_last_page(page_size, page.len()) {
                if next + 1 >= dataset_ids.len() {
                    Phase::Done
                } else {
                    Phase::Pages { dataset_ids, next: next + 1, last_uuid: Seq::empty() }
                }
            } else {
                Phase::Pages { dataset_ids, next, last_uuid: cursor_after(last_uuid, page) }
            }
        },
        _ => phase,
    }
}

/// Feeds `pages` one after another while pages are expected: the phase
/// reached, the messages emitted, and the number of pages taken.
pub open spec fn run_pages(page_size: nat, phase: Phase, pages: Seq<Seq<GroupListing>>) -> (
    Phase,
    Seq<ObjectDownloadMessage>,
    nat,
)
    decreases pages.len(),
{
    if pages.len() == 0 || !(phase is Pages) {
        (phase, Seq::empty(), 0)
    } else {
        let rest = run_pages(page_size, after_page(page_size, phase, pages[0]), pages.drop_first());
        (rest.0, messages_of_page(pages[0]) + rest.1, rest.2 + 1)
    }
}

/// Pages `pages` hold one dataset's whole listing: every page but the last
/// is full, and the last one is short.
pub open spec fn is_complete_listing(page_size: nat, pages: Seq<Seq<GroupListing>>) -> bool {
    &&& pages.len() > 0
    &&& forall|i: int| 0 <= i < pages.len() - 1 ==> !is_last_page(page_size, #[trigger] pages[i].len())
    &&& is_last_page(page_size, pages.last().len())
}

/// The messages of a sequence of pages, page after page.
pub open spec fn listing_messages(pages: Seq<Seq<GroupListing>>) -> Seq<ObjectDownloadMessage>
    decreases pages.len(),
{
    if pages.len() == 0 {
        Seq::empty()
    } else {
        messages_of_page(pages[0]) + listing_messages(pages.drop_first())
    }
}

/// The messages of several datasets' listings, dataset after dataset.
pub open spec fn datasets_messages(listings: Seq<Seq<Seq<GroupListing>>>) -> Seq<
    ObjectDownloadMessage,
>
    decreases listings.len(),
{
    if listings.len() == 0 {
        Seq::empty()
    } else {
        listing_messages(listings[0]) + datasets_messages(listings.drop_first())
    }
}

/// The sum, as multisets, of the messages of each dataset's listing.
pub open spec fn messages_multiset(listings: Seq<Seq<Seq<GroupListing>>>) -> Multiset<
    ObjectDownloadMessage,
>
    decreases listings.len(),
{
    if listings.len() == 0 {
        Multiset::empty()
    } else {
        listing_messages(listings[0]).to_multiset().add(messages_multiset(listings.drop_first()))
    }
}

spec fn single_dataset(dataset_id: Seq<char>, cursor: Seq<char>) -> Phase {
    Phase::Pages { dataset_ids: seq![dataset_id], next: 0, last_uuid: cursor }
}

proof fn lemma_step_single(
    page_size: nat,
    dataset_id: Seq<char>,
    cursor: Seq<char>,
    pages: Seq<Seq<GroupListing>>,
)
    requires
        pages.len() > 0,
    ensures
        ({
            let r = run_pages(page_size, single_dataset(dataset_id, cursor), pages);
            let c2 = cursor_after(cursor, pages[0]);
            let rr = run_pages(page_size, single_dataset(dataset_id, c2), pages.drop_first());
            &&& is_last_page(page_size, pages[0].len()) ==> r.0 is Done && r.2 == 1
            &&& !is_last_page(page_size, pages[0].len()) ==> r.0 == rr.0 && r.2 == rr.2 + 1
        }),
{
    let phase = single_dataset(dataset_id, cursor);
    if is_last_page(page_size, pages[0].len()) {
        assert(after_page(page_size, phase, pages[0]) is Done);
        assert(run_pages(page_size, Phase::Done, pages.drop_first()).2 == 0);
    } else {
        let c2 = cursor_after(cursor, pages[0]);
        assert(after_page(page_size, phase, pages[0]) == single_dataset(dataset_id, c2));
    }
}

proof fn lemma_short_page_ends(
    page_size: nat,
    dataset_id: Seq<char>,
    cursor: Seq<char>,
    pages: Seq<Seq<GroupListing>>,
    i: int,
)
    requires
        0 <= i < pages.len(),
        is_last_page(page_size, pages[i].len()),
    ensures
        run_pages(page_size, single_dataset(dataset_id, cursor), pages).0 is Done,
        (forall|j: int| 0 <= j < i ==> !is_last_page(page_size, #[trigger] pages[j].len()))
            ==> run_pages(page_size, single_dataset(dataset_id, cursor), pages).2 == i + 1,
    decreases i,
{
    lemma_step_single(page_size, dataset_id, cursor, pages);
    if !is_last_page(page_size, pages[0].len()) {
        let rest = pages.drop_first();
        assert(rest[i - 1] == pages[i]);
        lemma_short_page_ends(page_size, dataset_id, cursor_after(cursor, pages[0]), rest, i - 1);
        if forall|j: int| 0 <= j < i ==> !is_last_page(page_size, #[trigger] pages[j].len()) {
            assert forall|j: int| 0 <= j < i - 1 implies !is_last_page(
                page_size,
                #[trigger] rest[j].len(),
            ) by {
                assert(rest[j] == pages[j + 1]);
            }
        }
    } else {
        if forall|j: int| 0 <= j < i ==> !is_last_page(page_size, #[trigger] pages[j].len()) {
            assert(i == 0);
        }
    }
}

proof fn lemma_full_pages_continue(
    page_size: nat,
    dataset_id: Seq<char>,
    cursor: Seq<char>,
    pages: Seq<Seq<GroupListing>>,
)
    requires
        forall|i: int| 0 <= i < pages.len() ==> !is_last_page(page_size, #[trigger] pages[i].len()),
    ensures
        run_pages(page_size, single_dataset(dataset_id, cursor), pages).0 is Pages,
        run_pages(page_size, single_dataset(dataset_id, cursor), pages).2 == pages.len(),
    decreases pages.len(),
{
    if pages.len() > 0 {
        lemma_step_single(page_size, dataset_id, cursor, pages);
        let rest = pages.drop_first();
        assert forall|i: int| 0 <= i < rest.len() implies !is_last_page(
            page_size,
            #[trigger] rest[i].len(),
        ) by {
            assert(rest[i] == pages[i + 1]);
        }
        assert(!is_last_page(page_size, pages[0].len()));
        lemma_full_pages_continue(page_size, dataset_id, cursor_after(cursor, pages[0]), rest);
    }
}

/// Pagination stops exactly at a short page. Fed the pages of one dataset's
/// listing, the enumeration is over if and only if some page holds fewer
/// object groups than the page size; it takes every page up to and including
/// the first such page and none after it; while every page is full, it takes
/// them all and asks for more.
pub proof fn lemma_pagination_stops_at_short_page(
    page_size: nat,
    dataset_id: Seq<char>,
    cursor: Seq<char>,
    pages: Seq<Seq<GroupListing>>,
)
    ensures
        ({
            let r = run_pages(
                page_size,
                Phase::Pages { dataset_ids: seq![dataset_id], next: 0, last_uuid: cursor },
                pages,
            );
            &&& (r.0 is Done) <==> (exists|i: int|
                0 <= i < pages.len() && is_last_page(page_size, #[trigger] pages[i].len()))
            &&& forall|i: int|
                0 <= i < pages.len() && is_last_page(page_size, #[trigger] pages[i].len()) && (
                forall|j: int| 0 <= j < i ==> !is_last_page(page_size, #[trigger] pages[j].len()))
                    ==> r.2 == i + 1
            &&& (forall|i: int|
                0 <= i < pages.len() ==> !is_last_page(page_size, #[trigger] pages[i].len()))
                ==> r.2 == pages.len() && r.0 is Pages
        }),
{
    let phase = single_dataset(dataset_id, cursor);
    if exists|i: int| 0 <= i < pages.len() && is_last_page(page_size, #[trigger] pages[i].len()) {
        let i = choose|i: int|
            0 <= i < pages.len() && is_last_page(page_size, #[trigger] pages[i].len());
        lemma_short_page_ends(page_size, dataset_id, cursor, pages, i);
    } else {
        lemma_full_pages_continue(page_size, dataset_id, cursor, pages);
    }
    assert forall|i: int|
        0 <= i < pages.len() && is_last_page(page_size, #[trigger] pages[i].len()) && (forall|
            j: int,
        |
            0 <= j < i ==> !is_last_page(page_size, #[trigger] pages[j].len())) implies run_pages(
        page_size,
        phase,
        pages,
    ).2 == i + 1 by {
        lemma_short_page_ends(page_size, dataset_id, cursor, pages, i);
    }
}

/// A run of full pages followed by an empty page ends a dataset's listing
/// after exactly one call per page: `n` full pages take `n + 1` calls.
pub proof fn lemma_full_pages_then_empty(
    page_size: nat,
    dataset_id: Seq<char>,
    pages: Seq<Seq<GroupListing>>,
)
    requires
        page_size > 0,
        pages.len() > 0,
        forall|i: int| 0 <= i < pages.len() - 1 ==> #[trigger] pages[i].len() == page_size,
        pages.last().len() == 0,
    ensures
        ({
            let r = run_pages(
                page_size,
                Phase::Pages { dataset_ids: seq![dataset_id], next: 0, last_uuid: Seq::empty() },
                pages,
            );
            r.0 is Done && r.2 == pages.len()
        }),
{
    lemma_pagination_stops_at_short_page(page_size, dataset_id, Seq::empty(), pages);
    let n = pages.len() - 1;
    assert(is_last_page(page_size, pages[n].len()));
    assert forall|j: int| 0 <= j < n implies !is_last_page(page_size, #[trigger] pages[j].len()) by {
        assert(pages[j].len() == page_size);
    }
}

proof fn lemma_one_listing(
    page_size: nat,
    dataset_ids: Seq<Seq<char>>,
    next: nat,
    cursor: Seq<char>,
    pages: Seq<Seq<GroupListing>>,
    rest: Seq<Seq<GroupListing>>,
)
    requires
        next < dataset_ids.len(),
        is_complete_listing(page_size, pages),
    ensures
        ({
            let after = if next + 1 >= dataset_ids.len() {
                Phase::Done
            } else {
                Phase::Pages { dataset_ids, next: next + 1, last_uuid: Seq::empty() }
            };
            let whole = run_pages(
                page_size,
                Phase::Pages { dataset_ids, next, last_uuid: cursor },
                pages + rest,
            );
            let tail = run_pages(page_size, after, rest);
            whole.0 == tail.0 && whole.1 == listing_messages(pages) + tail.1
        }),
    decreases pages.len(),
{
    let phase = Phase::Pages { dataset_ids, next, last_uuid: cursor };
    let all = pages + rest;
    assert(all[0] == pages[0]);
    if pages.len() == 1 {
        assert(is_last_page(page_size, pages[0].len()));
        assert(all.drop_first() =~= rest);
        assert(pages.drop_first() =~= Seq::<Seq<GroupListing>>::empty());
        assert(listing_messages(Seq::<Seq<GroupListing>>::empty()) == Seq::<
            ObjectDownloadMessage,
        >::empty());
        assert(listing_messages(pages) == messages_of_page(pages[0]) + Seq::empty());
        assert(listing_messages(pages) =~= messages_of_page(pages[0]));
    } else {
        assert(!is_last_page(page_size, pages[0].len()));
        let c2 = cursor_after(cursor, pages[0]);
        let tail_pages = pages.drop_first();
        assert(all.drop_first() =~= tail_pages + rest);
        assert forall|i: int| 0 <= i < tail_pages.len() - 1 implies !is_last_page(
            page_size,
            #[trigger] tail_pages[i].len(),
        ) by {
            assert(tail_pages[i] == pages[i + 1]);
        }
        assert(tail_pages.last() == pages.last());
        lemma_one_listing(page_size, dataset_ids, next, c2, tail_pages, rest);
        assert(listing_messages(pages) == messages_of_page(pages[0]) + listing_messages(
            tail_pages,
        ));
    }
}

proof fn lemma_listings_from(
    page_size: nat,
    dataset_ids: Seq<Seq<char>>,
    listings: Seq<Seq<Seq<GroupListing>>>,
    k: nat,
)
    requires
        dataset_ids.len() == listings.len(),
        k <= listings.len(),
        forall|i: int| 0 <= i < listings.len() ==> is_complete_listing(page_size, #[trigger] listings[i]),
    ensures
        ({
            let start = if k >= dataset_ids.len() {
                Phase::Done
            } else {
                Phase::Pages { dataset_ids, next: k, last_uuid: Seq::empty() }
            };
            let tail = listings.subrange(k as int, listings.len() as int);
            let r = run_pages(page_size, start, tail.flatten());
            r.0 is Done && r.1 == datasets_messages(tail)
        }),
    decreases listings.len() - k,
{
    let tail = listings.subrange(k as int, listings.len() as int);
    if k < listings.len() {
        let tail2 = listings.subrange(k + 1 as int, listings.len() as int);
        assert(tail.drop_first() =~= tail2);
        assert(tail.first() == listings[k as int]);
        assert(tail.flatten() == listings[k as int] + tail2.flatten());
        lemma_one_listing(
            page_size,
            dataset_ids,
            k,
            Seq::empty(),
            listings[k as int],
            tail2.flatten(),
        );
        lemma_listings_from(page_size, dataset_ids, listings, (k + 1) as nat);
    } else {
        assert(tail =~= Seq::<Seq<Seq<GroupListing>>>::empty());
        assert(tail.flatten() =~= Seq::<Seq<GroupListing>>::empty());
    }
}

proof fn lemma_messages_multiset(listings: Seq<Seq<Seq<GroupListing>>>)
    ensures
        datasets_messages(listings).to_multiset() == messages_multiset(listings),
    decreases listings.len(),
{
    if listings.len() > 0 {
        lemma_messages_multiset(listings.drop_first());
        vstd::seq_lib::lemma_multiset_commutative(
            listing_messages(listings[0]),
            datasets_messages(listings.drop_first()),
        );
    } else {
        vstd::seq_lib::to_multiset_len(datasets_messages(listings));
        vstd::multiset::lemma_multiset_empty_len(datasets_messages(listings).to_multiset());
    }
}

/// Enumerating a project emits each dataset's listing in full, dataset after
/// dataset in listing order, and then stops. No message is lost or repeated:
/// as a multiset, the result is the sum of the datasets' messages.
pub proof fn lemma_project_enumeration(
    page_size: nat,
    dataset_ids: Seq<Seq<char>>,
    listings: Seq<Seq<Seq<GroupListing>>>,
)
    requires
        dataset_ids.len() == listings.len(),
        forall|i: int| 0 <= i < listings.len() ==> is_complete_listing(page_size, #[trigger] listings[i]),
    ensures
        ({
            let r = run_pages(page_size, after_datasets(dataset_ids), listings.flatten());
            &&& r.0 is Done
            &&& r.1 == datasets_messages(listings)
            &&& r.1.to_multiset() == messages_multiset(listings)
        }),
{
    lemma_listings_from(page_size, dataset_ids, listings, 0);
    assert(listings.subrange(0, listings.len() as int) =~= listings);
    lemma_messages_multiset(listings);
}

#[derive(Clone, Copy, PartialEq, Eq, Structural)]
enum Stage {
    ListDatasets,
    Pages,
    ListGroup,
    Done,
}

/// Decides the listing calls that enumerate the objects below a project, a
/// dataset or an object group, and turns their answers into download
/// messages.
pub struct ResourceEnumerator {
    page_size: u64,
    stage: Stage,
    /// The project or object group being listed.
    root_id: String,
    dataset_ids: Vec<String>,
    next: usize,
    last_uuid: String,
}

impl ResourceEnumerator {
    pub closed spec fn spec_page_size(&self) -> nat {
        self.page_size as nat
    }

    pub closed spec fn phase(&self) -> Phase {
        match self.stage {
            Stage::ListDatasets => Phase::ListDatasets { project_id: self.root_id@ },
            Stage::Pages => Phase::Pages {
                dataset_ids: self.dataset_ids@.map_values(|d: String| d@),
                next: self.next as nat,
                last_uuid: self.last_uuid@,
            },
            Stage::ListGroup => Phase::ListGroup { object_group_id: self.root_id@ },
            Stage::Done => Phase::Done,
        }
    }

    pub closed spec fn wf(&self) -> bool {
        self.stage == Stage::Pages ==> self.next < self.dataset_ids@.len()
    }

    /// Starts enumerating the resource `id` of kind `resource`, listing
    /// datasets `page_size` object groups at a time.
    pub fn with_page_size(resource: Resource, id: String, page_size: u64) -> (r: Result<
        Self,
        EnumerateError,
    >)
        ensures
            r is Err <==> resource == Resource::DatasetVersion,
            r matches Err(e) ==> e == EnumerateError::UnsupportedResource,
            r matches Ok(en) ==> {
                &&& en.wf()
                &&& en.spec_page_size() == page_size
                &&& resource == Resource::Project ==> en.phase() == (Phase::ListDatasets {
                    project_id: id@,
                })
                &&& resource == Resource::Dataset ==> en.phase() == (Phase::Pages {
                    dataset_ids: seq![id@],
                    next: 0,
                    last_uuid: Seq::empty(),
                })
                &&& resource == Resource::ObjectGroup ==> en.phase() == (Phase::ListGroup {
                    object_group_id: id@,
                })
            },
    {
        let mut dataset_ids: Vec<String> = Vec::new();
        match resource {
            Resource::Project => Ok(
                ResourceEnumerator {
                    page_size,
                    stage: Stage::ListDatasets,
                    root_id: id,
                    dataset_ids,
                    next: 0,
                    last_uuid: String::new(),
                },
            ),
            Resource::Dataset => {
                dataset_ids.push(id);
                assert(dataset_ids@.map_values(|d: String| d@) =~= seq![id@]);
                Ok(
                    ResourceEnumerator {
                        page_size,
                        stage: Stage::Pages,
                        root_id: String::new(),
                        dataset_ids,
                        next: 0,
                        last_uuid: String::new(),
                    },
                )
            },
            Resource::DatasetVersion => Err(EnumerateError::UnsupportedResource),
            Resource::ObjectGroup => Ok(
                ResourceEnumerator {
                    page_size,
                    stage: Stage::ListGroup,
                    root_id: id,
                    dataset_ids,
                    next: 0,
                    last_uuid: String::new(),
                },
            ),
        }
    }

    /// Starts enumerating with pages of `DATASET_OBJECT_GROUP_PAGE_SIZE`.
    pub fn new(resource: Resource, id: String) -> (r: Result<Self, EnumerateError>)
        ensures
            r is Err <==> resource == Resource::DatasetVersion,
            r matches Err(e) ==> e == EnumerateError::UnsupportedResource,
            r matches Ok(en) ==> {
                &&& en.wf()
                &&& en.spec_page_size() == DATASET_OBJECT_GROUP_PAGE_SIZE
                &&& resource == Resource::Project ==> en.phase() == (Phase::ListDatasets {
                    project_id: id@,
                })
                &&& resource == Resource::Dataset ==> en.phase() == (Phase::Pages {
                    dataset_ids: seq![id@],
                    next: 0,
                    last_uuid: Seq::empty(),
                })
                &&& resource == Resource::ObjectGroup ==> en.phase() == (Phase::ListGroup {
                    object_group_id: id@,
                })
            },
    {
        Self::with_page_size(resource, id, DATASET_OBJECT_GROUP_PAGE_SIZE)
    }

    pub fn is_done(&self) -> (r: bool)
        ensures
            r <==> self.phase() is Done,
    {
        self.stage == Stage::Done
    }

    /// The listing call to make next, or `None` once the enumeration is over.
    pub fn next_request(&self) -> (r: Option<ListRequest>)
        requires
            self.wf(),
        ensures
            r is None <==> self.phase() is Done,
            self.phase() matches Phase::ListDatasets { project_id } ==> r matches Some(
                ListRequest::ProjectDatasets { project_id: p },
            ) && p@ == project_id,
            self.phase() matches Phase::Pages { dataset_ids, next, last_uuid } ==> r matches Some(
                ListRequest::DatasetObjectGroups { dataset_id, page_request },
            ) && dataset_id@ == dataset_ids[next as int] && page_request.page_size
                == self.spec_page_size() && page_request.last_uuid@ == last_uuid,
            self.phase() matches Phase::ListGroup { object_group_id } ==> r matches Some(
                ListRequest::ObjectGroup { object_group_id: g },
            ) && g@ == object_group_id,
    {
        match self.stage {
            Stage::ListDatasets => Some(
                ListRequest::ProjectDatasets { project_id: self.root_id.clone() },
            ),
            Stage::Pages => Some(
                ListRequest::DatasetObjectGroups {
                    dataset_id: self.dataset_ids[self.next].clone(),
                    page_request: PageRequest {
                        page_size: self.page_size,
                        last_uuid: self.last_uuid.clone(),
                    },
                },
            ),
            Stage::ListGroup => Some(
                ListRequest::ObjectGroup { object_group_id: self.root_id.clone() },
            ),
            Stage::Done => None,
        }
    }

    /// Takes the datasets of the project, in listing order.
    pub fn on_datasets(&mut self, dataset_ids: Vec<String>) -> (r: Result<(), EnumerateError>)
        requires
            old(self).wf(),
        ensures
            final(self).wf(),
            final(self).spec_page_size() == old(self).spec_page_size(),
            r is Ok <==> old(self).phase() is ListDatasets,
            r matches Err(e) ==> e == EnumerateError::UnexpectedResponse && final(self).phase()
                == old(self).phase(),
            r is Ok ==> final(self).phase() == after_datasets(
                dataset_ids@.map_values(|d: String| d@),
            ),
    {
        if self.stage != Stage::ListDatasets {
            return Err(EnumerateError::UnexpectedResponse);
        }
        if dataset_ids.len() == 0 {
            self.stage = Stage::Done;
        } else {
            self.stage = Stage::Pages;
            self.dataset_ids = dataset_ids;
            self.next = 0;
            self.last_uuid = String::new();
        }
        Ok(())
    }

    /// Takes a page of the listing of the current dataset and returns its
    /// messages.
    pub fn on_page(&mut self, page: &Vec<GroupListing>) -> (r: Result<
        Vec<ObjectDownloadMessage>,
        EnumerateError,
    >)
        requires
            old(self).wf(),
        ensures
            final(self).wf(),
            final(self).spec_page_size() == old(self).spec_page_size(),
            r is Ok <==> old(self).phase() is Pages,
            r matches Err(e) ==> e == EnumerateError::UnexpectedResponse && final(self).phase()
                == old(self).phase(),
            r matches Ok(msgs) ==> msgs@ == messages_of_page(page@) && final(self).phase()
                == after_page(old(self).spec_page_size(), old(self).phase(), page@),
    {
        if self.stage != Stage::Pages {
            return Err(EnumerateError::UnexpectedResponse);
        }
        let n = self.dataset_ids.len();
        let (msgs, cursor) = page_messages(page, &self.last_uuid);
        if (page.len() as u64) < self.page_size {
            if self.next + 1 >= n {
                self.stage = Stage::Done;
            } else {
                self.next = self.next + 1;
                self.last_uuid = String::new();
            }
        } else {
            self.last_uuid = cursor;
        }
        Ok(msgs)
    }

    /// Takes the listed object group and returns its messages.
    pub fn on_group(&mut self, group: &GroupListing) -> (r: Result<
        Vec<ObjectDownloadMessage>,
        EnumerateError,
    >)
        requires
            old(self).wf(),
        ensures
            final(self).wf(),
            final(self).spec_page_size() == old(self).spec_page_size(),
            r is Ok <==> old(self).phase() is ListGroup,
            r matches Err(e) ==> e == EnumerateError::UnexpectedResponse && final(self).phase()
                == old(self).phase(),
            r matches Ok(msgs) ==> msgs@ == messages_of_group(*group) && final(self).phase()
                is Done,
    {
        if self.stage != Stage::ListGroup {
            return Err(EnumerateError::UnexpectedResponse);
        }
        self.stage = Stage::Done;
        Ok(group_messages(group))
    }
}

} // verus!
