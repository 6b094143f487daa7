use vstd::prelude::*;
use crate::lifecycle::{initial, next, CoordinatorView, Step};
use crate::pixels::{image_shape_ok, CapturedImage};
use crate::request::{CaptureError, CaptureJob, Completion, Dispatch, NativeScreenshotCaptured, NewRequest};

verus! {

/// The identities held in a sequence, as a set.
pub open spec fn id_set(s: Seq<u64>) -> Set<u64> {
    s.to_set()
}

/// Tracks every capture request from its dispatch to its retirement, on the
/// interactive loop's side. It launches at most one worker per identity,
/// fires at most one event per identity, and never takes an identity back
/// once it is retired.
pub struct Coordinator {
    capturing: Vec<u64>,
    retired: Vec<u64>,
    submitted: Ghost<Set<u64>>,
    fired: Ghost<Seq<u64>>,
}

impl View for Coordinator {
    type V = CoordinatorView;

    closed spec fn view(&self) -> CoordinatorView {
        CoordinatorView {
            capturing: id_set(self.capturing@),
            retired: id_set(self.retired@),
            submitted: self.submitted@,
            fired: self.fired@,
        }
    }
}

proof fn lemma_push_ids(s: Seq<u64>, v: u64)
    ensures
        id_set(s.push(v)) == id_set(s).insert(v),
{
    assert forall|x: u64| #[trigger] id_set(s.push(v)).contains(x) == id_set(s).insert(v).contains(x) by {
        if s.contains(x) {
            let k = choose|k: int| 0 <= k < s.len() && s[k] == x;
            assert(s.push(v)[k] == x);
        }
        if x == v {
            assert(s.push(v)[s.len() as int] == v);
        }
        if s.push(v).contains(x) && x != v {
            let k = choose|k: int| 0 <= k < s.len() + 1 && s.push(v)[k] == x;
            assert(s[k] == x);
        }
    }
    assert(id_set(s.push(v)) =~= id_set(s).insert(v));
}

fn position_of(ids: &Vec<u64>, id: u64) -> (r: Option<usize>)
    ensures
        match r {
            Some(i) => i < ids@.len() && ids@[i as int] == id,
            None => !ids@.contains(id),
        },
{
    let mut i: usize = 0;
    while i < ids.len()
        invariant
            i <= ids@.len(),
            forall|j: int| 0 <= j < i ==> ids@[j] != id,
        decreases ids@.len() - i,
    {
        if ids[i] == id {
            return Some(i);
        }
        i = i + 1;
    }
    None
}

impl Coordinator {
    /// The coordinator's internal invariant: its state is consistent, and
    /// each capturing identity is held once.
    pub closed spec fn wf(&self) -> bool {
        &&& self.capturing@.no_duplicates()
        &&& self@.consistent()
    }

    /// A coordinator that has seen no request.
    pub fn new() -> (r: Self)
        ensures
            r.wf(),
            r@ == initial(),
    {
        let r = Coordinator {
            capturing: Vec::new(),
            retired: Vec::new(),
            submitted: Ghost(Set::empty()),
            fired: Ghost(Seq::empty()),
        };
        assert(r@.capturing =~= Set::empty());
        assert(r@.retired =~= Set::empty());
        assert(r@.submitted =~= r@.capturing.union(r@.retired));
        assert(r@.fired =~= Seq::empty());
        r
    }

    /// Phase one of a tick, for one request seen for the first time.
    ///
    /// An identity that the coordinator already knows is ignored, so no
    /// request gets a second worker. A request whose target window has no
    /// handle is retired at once, with no worker and no event. Any other
    /// request becomes capturing and its job is handed out for a worker.
    pub fn dispatch(&mut self, req: NewRequest) -> (r: Dispatch)
        requires
            old(self).wf(),
        ensures
            final(self).wf(),
            final(self)@ == next(old(self)@, Step::Dispatch { id: req.id, has_handle: req.handle is Some }),
            final(self)@.fired == old(self)@.fired,
            !old(self)@.is_new(req.id) ==> r is Ignore && final(self)@ == old(self)@,
            old(self)@.is_new(req.id) ==> final(self)@.submitted == old(self)@.submitted.insert(req.id),
            old(self)@.is_new(req.id) && req.handle is None ==> {
                &&& r == Dispatch::Retire(req.id)
                &&& final(self)@.capturing == old(self)@.capturing
                &&& final(self)@.retired == old(self)@.retired.insert(req.id)
            },
            old(self)@.is_new(req.id) && req.handle is Some ==> {
                &&& r == Dispatch::Launch(
                    (CaptureJob { id: req.id, handle: req.handle->0, title: req.title }),
                )
                &&& final(self)@.capturing == old(self)@.capturing.insert(req.id)
                &&& final(self)@.retired == old(self)@.retired
            },
    {
        let id = req.id;
        let known_live = position_of(&self.capturing, id);
        let known_done = position_of(&self.retired, id);
        if known_live.is_some() || known_done.is_some() {
            proof {
                if known_live.is_some() {
                    assert(self@.capturing.contains(id));
                } else {
                    assert(self@.retired.contains(id));
                }
            }
            return Dispatch::Ignore;
        }
        assert(!self@.submitted.contains(id));
        let ghost old_view = self@;
        self.submitted = Ghost(self.submitted@.insert(id));
        match req.handle {
            None => {
                proof {
                    lemma_push_ids(self.retired@, id);
                }
                self.retired.push(id);
                assert(self@.retired =~= old_view.retired.insert(id));
                assert(self@.submitted =~= self@.capturing.union(self@.retired));
                assert forall|i: int| 0 <= i < self@.fired.len() implies self@.retired.contains(
                    #[trigger] self@.fired[i],
                ) by {
                    assert(old_view.retired.contains(self@.fired[i]));
                }
                Dispatch::Retire(id)
            },
            Some(handle) => {
                proof {
                    lemma_push_ids(self.capturing@, id);
                }
                self.capturing.push(id);
                assert(self@.capturing =~= old_view.capturing.insert(id));
                assert(self@.submitted =~= self@.capturing.union(self@.retired));
                assert(self.capturing@.no_duplicates()) by {
                    assert forall|a: int, b: int|
                        0 <= a < b < self.capturing@.len() implies self.capturing@[a]
                        != self.capturing@[b] by {
                        if b == self.capturing@.len() - 1 {
                            assert(old_view.capturing.contains(self.capturing@[a]));
                        }
                    }
                }
                Dispatch::Launch(CaptureJob { id, handle, title: req.title })
            },
        }
    }

    /// Phase two of a tick, for one report of a worker.
    ///
    /// A report for an identity that is not capturing is dropped and changes
    /// nothing. Otherwise the request is retired whatever the report says.
    /// Its event is fired only when its record still exists (`alive`) and the
    /// report holds a well-formed image; a failure report, or a malformed
    /// image, gives the error instead; a vanished record gives nothing.
    pub fn complete(
        &mut self,
        id: u64,
        report: Result<CapturedImage, CaptureError>,
        alive: bool,
    ) -> (r: Completion)
        requires
            old(self).wf(),
        ensures
            final(self).wf(),
            final(self)@ == next(old(self)@, Step::Complete { id, fires: r is Fire }),
            !old(self)@.capturing.contains(id) ==> r is Drop && final(self)@ == old(self)@,
            old(self)@.capturing.contains(id) ==> {
                &&& final(self)@.capturing == old(self)@.capturing.remove(id)
                &&& final(self)@.retired == old(self)@.retired.insert(id)
                &&& final(self)@.submitted == old(self)@.submitted
            },
            old(self)@.capturing.contains(id) && !alive ==> r is Drop && final(self)@.fired
                == old(self)@.fired,
            old(self)@.capturing.contains(id) && alive ==> match report {
                Ok(img) => if img.well_formed() {
                    &&& r == Completion::Fire(
                        (NativeScreenshotCaptured {
                            entity: id,
                            width: img.width,
                            height: img.height,
                            rgba: img.rgba,
                        }),
                    )
                    &&& final(self)@.fired == old(self)@.fired.push(id)
                } else {
                    &&& r == Completion::Fail(
                        id,
                        CaptureError::MalformedImage {
                            width: img.width,
                            height: img.height,
                            len: img.rgba@.len() as usize,
                        },
                    )
                    &&& final(self)@.fired == old(self)@.fired
                },
                Err(e) => r == Completion::Fail(id, e) && final(self)@.fired == old(self)@.fired,
            },
            r matches Completion::Fire(ev) ==> {
                &&& ev.entity == id
                &&& !old(self)@.fired.contains(id)
                &&& image_shape_ok(ev.width, ev.height, ev.rgba@.len())
            },
    {
        let found = position_of(&self.capturing, id);
        let i = match found {
            Some(i) => i,
            None => {
                assert(!self@.capturing.contains(id));
                return Completion::Drop;
            },
        };
        let ghost old_view = self@;
        let ghost old_caps = self.capturing@;
        self.capturing.remove(i);
        proof {
            lemma_push_ids(self.retired@, id);
        }
        self.retired.push(id);
        proof {
            assert forall|x: u64| #[trigger] self@.capturing.contains(x) == old_view.capturing.remove(
                id,
            ).contains(x) by {
                if self.capturing@.contains(x) {
                    let k = choose|k: int| 0 <= k < self.capturing@.len() && self.capturing@[k] == x;
                    if k < i {
                        assert(old_caps[k] == x);
                    } else {
                        assert(old_caps[k + 1] == x);
                    }
                }
                if old_view.capturing.remove(id).contains(x) {
                    let k = choose|k: int| 0 <= k < old_caps.len() && old_caps[k] == x;
                    if k < i {
                        assert(self.capturing@[k] == x);
                    } else {
                        assert(k != i);
                        assert(self.capturing@[k - 1] == x);
                    }
                }
            }
            assert(self@.capturing =~= old_view.capturing.remove(id));
            assert(self@.retired =~= old_view.retired.insert(id));
            assert(self@.submitted =~= self@.capturing.union(self@.retired));
            assert(old_view.capturing.contains(id));
            assert(!old_view.fired.contains(id)) by {
                if old_view.fired.contains(id) {
                    let k = choose|k: int| 0 <= k < old_view.fired.len() && old_view.fired[k] == id;
                    assert(old_view.retired.contains(old_view.fired[k]));
                }
            }
            assert forall|k: int| 0 <= k < self@.fired.len() implies self@.retired.contains(
                #[trigger] self@.fired[k],
            ) by {
                assert(old_view.retired.contains(self@.fired[k]));
            }
        }
        if !alive {
            return Completion::Drop;
        }
        match report {
            Ok(img) => {
                if img.is_well_formed() {
                    let ghost before = self.fired@;
                    self.fired = Ghost(self.fired@.push(id));
                    proof {
                        assert forall|k: int| 0 <= k < self@.fired.len() implies self@.retired.contains(
                            #[trigger] self@.fired[k],
                        ) by {
                            if k < before.len() {
                                assert(self@.fired[k] == before[k]);
                            }
                        }
                        assert(self@.fired.no_duplicates()) by {
                            assert forall|a: int, b: int|
                                0 <= a < b < self@.fired.len() implies self@.fired[a]
                                != self@.fired[b] by {
                                if b == before.len() {
                                    assert(before.contains(before[a]));
                                }
                            }
                        }
                    }
                    Completion::Fire(
                        NativeScreenshotCaptured {
                            entity: id,
                            width: img.width,
                            height: img.height,
                            rgba: img.rgba,
                        },
                    )
                } else {
                    let len = img.rgba.len();
                    Completion::Fail(
                        id,
                        CaptureError::MalformedImage { width: img.width, height: img.height, len },
                    )
                }
            },
            Err(e) => Completion::Fail(id, e),
        }
    }
}

/// A request's event is fired at most once: the identities in the fired log
/// are distinct, and each of them is retired, so it is neither capturing nor
/// new, and no later report or resubmission under it can fire again.
pub proof fn lemma_event_fired_at_most_once(c: &Coordinator)
    requires
        c.wf(),
    ensures
        c@.fired.no_duplicates(),
        forall|i: int|
            0 <= i < c@.fired.len() ==> {
                &&& c@.retired.contains(#[trigger] c@.fired[i])
                &&& !c@.capturing.contains(c@.fired[i])
                &&& !c@.is_new(c@.fired[i])
            },
{
    assert forall|i: int| 0 <= i < c@.fired.len() implies !c@.capturing.contains(
        #[trigger] c@.fired[i],
    ) by {
        assert(c@.retired.contains(c@.fired[i]));
    }
}

/// Every accepted request is either still capturing or retired, never both;
/// once no worker is outstanding, the retired identities are exactly the
/// submitted ones.
pub proof fn lemma_retired_covers_submitted(c: &Coordinator)
    requires
        c.wf(),
    ensures
        c@.submitted == c@.capturing.union(c@.retired),
        c@.capturing.disjoint(c@.retired),
        c@.capturing.is_empty() ==> c@.retired == c@.submitted,
{
    if c@.capturing.is_empty() {
        assert(c@.retired =~= c@.submitted);
    }
}

} // verus!
