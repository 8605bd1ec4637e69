//! Where each subscription finds the outcomes of its thread: in the route that
//! it subscribed to, and once that route is gone, in what was kept of it.
use vstd::prelude::*;

use std::sync::Arc;

use crate::codex::client::ThreadId;
use crate::codex::projection::ProjectionView;
use crate::codex::projection::ThreadProjection;
use crate::outside::share;
use crate::text::same_text;

verus! {

/// Where one subscription finds the outcomes of its thread.
pub struct Home {
    pub id: u64,
    pub thread_id: ThreadId,
    pub kept: Option<Arc<ThreadProjection>>,
}

/// Content of where one subscription finds outcomes: what was kept of its
/// route, or nothing while the route is there.
pub struct HomeView {
    pub id: u64,
    pub thread_id: Seq<char>,
    pub kept: Option<ProjectionView>,
}

impl View for Home {
    type V = HomeView;

    open spec fn view(&self) -> HomeView {
        HomeView {
            id: self.id,
            thread_id: self.thread_id@,
            kept: match self.kept {
                Some(projection) => Some(projection@),
                None => None,
            },
        }
    }
}

/// The home of a subscription, where it has one.
pub open spec fn home_of(homes: Seq<HomeView>, id: u64) -> Option<HomeView>
    decreases homes.len(),
{
    if homes.len() == 0 {
        None
    } else if homes.last().id == id {
        Some(homes.last())
    } else {
        home_of(homes.drop_last(), id)
    }
}

/// The home of a subscription once the route of a thread is gone.
pub open spec fn home_detached(
    home: HomeView,
    thread_id: Seq<char>,
    projection: ProjectionView,
) -> HomeView {
    if home.thread_id == thread_id && home.kept is None {
        HomeView { kept: Some(projection), ..home }
    } else {
        home
    }
}

/// The homes once the route of a thread is gone: its subscriptions keep what
/// it knew.
pub open spec fn detached(
    homes: Seq<HomeView>,
    thread_id: Seq<char>,
    projection: ProjectionView,
) -> Seq<HomeView> {
    homes.map_values(|home: HomeView| home_detached(home, thread_id, projection))
}

/// The homes without that of a subscription.
pub open spec fn without_home(homes: Seq<HomeView>, id: u64) -> Seq<HomeView>
    decreases homes.len(),
{
    if homes.len() == 0 {
        homes
    } else {
        let rest = without_home(homes.drop_last(), id);
        if homes.last().id == id {
            rest
        } else {
            rest.push(homes.last())
        }
    }
}

/// The homes of all subscriptions.
pub struct Homes {
    entries: Vec<Home>,
}

impl View for Homes {
    type V = Seq<HomeView>;

    closed spec fn view(&self) -> Seq<HomeView> {
        self.entries@.map_values(|home: Home| home@)
    }
}

impl Homes {
    pub closed spec fn wf(&self) -> bool {
        forall|k: int|
            0 <= k < self.entries@.len() ==> ((#[trigger] self.entries@[k]).kept matches Some(
                projection,
            ) ==> projection.wf())
    }

    pub fn new() -> (homes: Homes)
        ensures
            homes.wf(),
            homes@ == Seq::<HomeView>::empty(),
    {
        let homes = Homes { entries: Vec::new() };
        proof {
            assert(homes@ =~= Seq::empty());
        }
        homes
    }

    /// Adds a subscription to a thread that is tracked.
    pub fn add(&mut self, id: u64, thread_id: &ThreadId)
        requires
            old(self).wf(),
        ensures
            final(self).wf(),
            final(self)@ == old(self)@.push(
                HomeView { id, thread_id: thread_id@, kept: None },
            ),
    {
        self.entries.push(Home { id, thread_id: thread_id.clone(), kept: None });
        proof {
            assert(self@ =~= old(self)@.push(HomeView { id, thread_id: thread_id@, kept: None }));
        }
    }

    /// Forgets a subscription.
    pub fn forget(&mut self, id: u64)
        requires
            old(self).wf(),
        ensures
            final(self).wf(),
            final(self)@ == without_home(old(self)@, id),
    {
        let ghost all = self@;
        let mut rest: Vec<Home> = Vec::new();
        std::mem::swap(&mut rest, &mut self.entries);
        let mut kept: Vec<Home> = Vec::new();
        let ghost source = rest@;
        proof {
            assert(source.map_values(|home: Home| home@) =~= all);
            assert(all.take(0) =~= Seq::empty());
            assert(kept@.map_values(|home: Home| home@) =~= Seq::empty());
        }
        let ghost mut at: int = 0;
        while rest.len() > 0
            invariant
                0 <= at,
                at + rest@.len() == source.len(),
                rest@ == source.skip(at),
                all == source.map_values(|home: Home| home@),
                kept@.map_values(|home: Home| home@) == without_home(all.take(at), id),
                forall|k: int|
                    0 <= k < source.len() ==> ((#[trigger] source[k]).kept matches Some(
                        projection,
                    ) ==> projection.wf()),
                forall|k: int|
                    0 <= k < kept@.len() ==> ((#[trigger] kept@[k]).kept matches Some(
                        projection,
                    ) ==> projection.wf()),
            decreases rest@.len(),
        {
            let home = rest.remove(0);
            proof {
                assert(home == source[at]);
                assert(rest@ =~= source.skip(at + 1));
                assert(all.take(at + 1).drop_last() =~= all.take(at));
                assert(all.take(at + 1).last() == home@);
            }
            let ghost before = kept@;
            if home.id != id {
                kept.push(home);
                proof {
                    assert(kept@.map_values(|home: Home| home@) =~= before.map_values(
                        |home: Home| home@,
                    ).push(home@));
                }
            }
            proof {
                at = at + 1;
            }
        }
        proof {
            assert(all.take(at) =~= all);
        }
        self.entries = kept;
    }

    /// Keeps what a route knew for its subscriptions.
    pub fn detach(&mut self, thread_id: &str, projection: ThreadProjection)
        requires
            old(self).wf(),
            projection.wf(),
        ensures
            final(self).wf(),
            final(self)@ == detached(old(self)@, thread_id@, projection@),
    {
        let shared = Arc::new(projection);
        let ghost before = self@;
        let mut at: usize = 0;
        while at < self.entries.len()
            invariant
                self.wf(),
                before == old(self)@,
                shared.wf(),
                shared@ == projection@,
                self@.len() == before.len(),
                self@.len() == self.entries@.len(),
                at <= before.len(),
                forall|k: int|
                    0 <= k < at ==> #[trigger] self@[k] == home_detached(
                        before[k],
                        thread_id@,
                        projection@,
                    ),
                forall|k: int| at <= k < before.len() ==> #[trigger] self@[k] == before[k],
            decreases before.len() - at,
        {
            let ghost held = *self;
            proof {
                assert(self@[at as int] == self.entries@[at as int]@);
            }
            let home = &self.entries[at];
            if same_text(home.thread_id.as_str(), thread_id) && home.kept.is_none() {
                let next = Home {
                    id: home.id,
                    thread_id: home.thread_id.clone(),
                    kept: Some(share(&shared)),
                };
                self.entries[at] = next;
                proof {
                    assert(self@ =~= held@.update(at as int, next@));
                }
            }
            at += 1;
        }
        proof {
            assert(self@ =~= detached(before, thread_id@, projection@));
        }
    }

    /// The home of a subscription.
    pub fn find(&self, id: u64) -> (found: Option<&Home>)
        requires
            self.wf(),
        ensures
            match found {
                Some(home) => home_of(self@, id) == Some(home@) && (home.kept matches Some(
                    projection,
                ) ==> projection.wf()),
                None => home_of(self@, id) is None,
            },
    {
        let mut at: usize = self.entries.len();
        proof {
            assert(self@.take(at as int) =~= self@);
        }
        while at > 0
            invariant
                self.wf(),
                at <= self.entries@.len(),
                self@.len() == self.entries@.len(),
                home_of(self@.take(at as int), id) == home_of(self@, id),
            decreases at,
        {
            proof {
                let head = self@.take(at as int);
                assert(head.last() == self.entries@[at - 1]@);
                assert(head.drop_last() =~= self@.take(at - 1));
            }
            if self.entries[at - 1].id == id {
                return Some(&self.entries[at - 1]);
            }
            at -= 1;
        }
        None
    }
}

/// The loss of a route changes a home as it changes all homes.
pub proof fn lemma_home_detached(
    homes: Seq<HomeView>,
    thread_id: Seq<char>,
    projection: ProjectionView,
    id: u64,
)
    ensures
        home_of(detached(homes, thread_id, projection), id) == match home_of(homes, id) {
            Some(home) => Some(home_detached(home, thread_id, projection)),
            None => None,
        },
    decreases homes.len(),
{
    let next = detached(homes, thread_id, projection);
    if homes.len() > 0 {
        lemma_home_detached(homes.drop_last(), thread_id, projection, id);
        assert(next.drop_last() =~= detached(homes.drop_last(), thread_id, projection));
        assert(next.last() == home_detached(homes.last(), thread_id, projection));
    }
}

} // verus!
