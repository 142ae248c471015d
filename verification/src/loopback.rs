//! The loopback itself: its state, and the decisions that publish, rename and
//! rewire it.
//!
//! A loopback is published by a fixed sequence of CoreMIDI operations (its build
//! plan). The library decides which operation comes next and what a reported
//! outcome does to the loopback; whoever holds the CoreMIDI client performs each
//! operation and reports how it went.
use vstd::prelude::*;
use crate::endpoints::{displayed_as, id_is_free, EndpointInfo};
use crate::errors::LoopbackError;

verus! {

/// One CoreMIDI operation of a build plan.
#[derive(Clone, Copy, Debug, PartialEq, Eq, Structural)]
pub enum LoopbackAction {
    /// Drop the virtual destination that is currently published.
    ReleaseDestination,
    /// Create a virtual source under the build's name.
    CreateSource,
    /// Set the source's unique-id property to this value.
    SetSourceUniqueId(i32),
    /// Find the destination endpoint whose unique id is this one.
    LocateDestination(u32),
    /// Create an output port under the build's name, to forward to the endpoint
    /// found last.
    CreateOutputPort,
    /// Create a virtual destination under the build's name that forwards what it
    /// receives through the source and every port created.
    CreateDestination,
    /// Set the destination's unique-id property to this value.
    SetDestinationUniqueId(i32),
}

/// How a CoreMIDI operation went.
#[derive(Clone, Copy, Debug, PartialEq, Eq, Structural)]
pub enum StepOutcome {
    /// The operation succeeded.
    Done,
    /// The CoreMIDI call returned this status.
    Failed(i32),
    /// No destination endpoint carries the id being located.
    NotFound,
}

/// A build in progress: the name it publishes under, whether it starts by
/// releasing the published destination, and the position of the next operation.
pub struct BuildModel {
    pub name: Seq<char>,
    pub release: bool,
    pub step: nat,
}

/// What a loopback is: its name, the unique ids of its source and destination,
/// the ids of the destinations it also forwards to, whether its destination is
/// published, and the build in progress, if any.
pub struct LoopbackModel {
    pub name: Seq<char>,
    pub source_id: u32,
    pub destination_id: u32,
    pub additional_dest_ids: (Option<u32>, Option<u32>),
    pub published: bool,
    pub build: Option<BuildModel>,
}

/// The operations that connect one more destination, if there is one.
pub open spec fn locate_steps(id: Option<u32>) -> Seq<LoopbackAction> {
    match id {
        Some(i) => seq![LoopbackAction::LocateDestination(i), LoopbackAction::CreateOutputPort],
        None => Seq::empty(),
    }
}

/// The build plan: release the published destination (where asked), create the
/// source and give it its id, locate each additional destination and create a
/// port for it, then create the destination and give it its id.
pub open spec fn plan_for(
    release: bool,
    source_id: u32,
    destination_id: u32,
    additional: (Option<u32>, Option<u32>),
) -> Seq<LoopbackAction> {
    (if release {
        seq![LoopbackAction::ReleaseDestination]
    } else {
        Seq::empty()
    }) + seq![LoopbackAction::CreateSource, LoopbackAction::SetSourceUniqueId(source_id as i32)]
        + locate_steps(additional.0) + locate_steps(additional.1) + seq![
        LoopbackAction::CreateDestination,
        LoopbackAction::SetDestinationUniqueId(destination_id as i32),
    ]
}

impl LoopbackModel {
    /// The plan of the build in progress.
    pub open spec fn plan(self) -> Seq<LoopbackAction> {
        plan_for(self.build->0.release, self.source_id, self.destination_id, self.additional_dest_ids)
    }

    /// A build in progress stands at an operation of its plan.
    pub open spec fn valid(self) -> bool {
        self.build matches Some(b) ==> b.step < self.plan().len()
    }

    /// The operation to perform next, if a build is in progress.
    pub open spec fn pending(self) -> Option<LoopbackAction> {
        match self.build {
            Some(b) => Some(self.plan()[b.step as int]),
            None => None,
        }
    }

    /// The loopback with a build started that publishes it under `name`; the
    /// destination is released first where it is published.
    pub open spec fn rebuilt(self, name: Seq<char>) -> LoopbackModel {
        LoopbackModel {
            published: false,
            build: Some(BuildModel { name, release: self.published, step: 0 }),
            ..self
        }
    }

    /// The loopback with new additional destinations, and a build started that
    /// publishes it again under its name.
    pub open spec fn rewired(self, id1: Option<u32>, id2: Option<u32>) -> LoopbackModel {
        LoopbackModel { additional_dest_ids: (id1, id2), ..self }.rebuilt(self.name)
    }

    /// The loopback after the pending operation ended with `outcome`: the build
    /// moves on after a success, publishes the loopback under the build's name
    /// after the last one, and ends, leaving nothing published, after a failure.
    pub open spec fn after(self, outcome: StepOutcome) -> LoopbackModel {
        let b = self.build->0;
        match outcome {
            StepOutcome::Done => if b.step + 1 < self.plan().len() {
                LoopbackModel { build: Some(BuildModel { step: b.step + 1, ..b }), ..self }
            } else {
                LoopbackModel { name: b.name, published: true, build: None, ..self }
            },
            _ => LoopbackModel { published: false, build: None, ..self },
        }
    }

    /// What reporting `outcome` answers: nothing while the build goes on, `Ok` when
    /// it has published the loopback, the error when it failed.
    pub open spec fn report_result(self, outcome: StepOutcome) -> Option<Result<(), LoopbackError>> {
        match outcome {
            StepOutcome::Done => if self.build->0.step + 1 < self.plan().len() {
                None
            } else {
                Some(Ok(()))
            },
            StepOutcome::Failed(status) => Some(Err(LoopbackError::CoreMidi(status))),
            StepOutcome::NotFound => Some(
                Err(
                    LoopbackError::DestinationNotFound(
                        match self.pending() {
                            Some(LoopbackAction::LocateDestination(id)) => id,
                            _ => 0,
                        },
                    ),
                ),
            ),
        }
    }
}

/// A loopback just started under `name` with the given ids: unpublished, forwarding
/// to no other destination, with a build in progress that publishes it.
pub open spec fn fresh_loopback(name: Seq<char>, source_id: u32, destination_id: u32) -> LoopbackModel {
    LoopbackModel {
        name,
        source_id,
        destination_id,
        additional_dest_ids: (None, None),
        published: false,
        build: Some(BuildModel { name, release: false, step: 0 }),
    }
}

/// The result of reporting the outcomes in turn, as long as a build is in progress.
pub open spec fn run(m: LoopbackModel, outcomes: Seq<StepOutcome>) -> LoopbackModel
    decreases outcomes.len(),
{
    if outcomes.len() == 0 || m.build is None {
        m
    } else {
        run(m.after(outcomes[0]), outcomes.drop_first())
    }
}

/// The result of reporting `k` successes in turn.
pub open spec fn run_successes(m: LoopbackModel, k: nat) -> LoopbackModel
    decreases k,
{
    if k == 0 {
        m
    } else {
        run_successes(m.after(StepOutcome::Done), (k - 1) as nat)
    }
}

/// A call that starts a new build: a rename, or new additional destinations.
pub enum Rebuild {
    Rename(Seq<char>),
    Rewire(Option<u32>, Option<u32>),
}

/// The loopback once `call` has started its build.
pub open spec fn started(m: LoopbackModel, call: Rebuild) -> LoopbackModel {
    match call {
        Rebuild::Rename(name) => m.rebuilt(name),
        Rebuild::Rewire(id1, id2) => m.rewired(id1, id2),
    }
}

/// The build has ended by publishing the loopback: its last report answered `Ok`.
pub open spec fn published_by_build(m: LoopbackModel) -> bool {
    m.published && m.build is None
}

/// The loopback after each call in turn, with the outcomes reported for its build.
pub open spec fn after_calls(m: LoopbackModel, calls: Seq<(Rebuild, Seq<StepOutcome>)>) -> LoopbackModel
    decreases calls.len(),
{
    if calls.len() == 0 {
        m
    } else {
        after_calls(run(started(m, calls[0].0), calls[0].1), calls.drop_first())
    }
}

/// The name of the last rename among the calls whose build published the loopback.
pub open spec fn last_published_rename(
    m: LoopbackModel,
    calls: Seq<(Rebuild, Seq<StepOutcome>)>,
) -> Option<Seq<char>>
    decreases calls.len(),
{
    if calls.len() == 0 {
        None
    } else {
        let r = run(started(m, calls[0].0), calls[0].1);
        match last_published_rename(r, calls.drop_first()) {
            Some(name) => Some(name),
            None => match calls[0].0 {
                Rebuild::Rename(name) => if published_by_build(r) {
                    Some(name)
                } else {
                    None
                },
                Rebuild::Rewire(_, _) => None,
            },
        }
    }
}

/// How many random ids a search for a free id draws at most.
pub const UNIQUE_ID_ATTEMPTS: usize = 10000;

/// The first `UNIQUE_ID_ATTEMPTS` of the drawn ids.
pub open spec fn capped(draws: Seq<u32>) -> Seq<u32> {
    if draws.len() <= UNIQUE_ID_ATTEMPTS {
        draws
    } else {
        draws.take(UNIQUE_ID_ATTEMPTS as int)
    }
}

/// The first of `draws` that no endpoint in `taken` carries.
pub open spec fn first_free(draws: Seq<u32>, taken: Seq<Option<u32>>) -> Option<u32>
    decreases draws.len(),
{
    if draws.len() == 0 {
        None
    } else if !taken.contains(Some(draws[0])) {
        Some(draws[0])
    } else {
        first_free(draws.drop_first(), taken)
    }
}

/// `draws` are the ids that one search draws: at least one and at most
/// `UNIQUE_ID_ATTEMPTS`, each but the last one taken, and the last one free unless
/// the limit was reached.
pub open spec fn is_search(draws: Seq<u32>, taken: Seq<Option<u32>>) -> bool {
    &&& 0 < draws.len() <= UNIQUE_ID_ATTEMPTS
    &&& forall|k: int| 0 <= k < draws.len() - 1 ==> taken.contains(Some(#[trigger] draws[k]))
    &&& draws.len() < UNIQUE_ID_ATTEMPTS ==> !taken.contains(Some(draws.last()))
}

/// `id` is what a search can answer: the first free id among the draws of a search.
pub open spec fn search_result(id: Option<u32>, taken: Seq<Option<u32>>) -> bool {
    exists|draws: Seq<u32>| #[trigger] is_search(draws, taken) && id == first_free(draws, taken)
}

/// What starting a loopback answers, given the outcomes of the searches for free
/// ids: a failed source search where the source id is missing, else a failed
/// destination search where the destination id is missing, else the started
/// loopback with the given or found ids.
pub open spec fn start_outcome(
    r: Result<(MIDILoopback, u32, u32), LoopbackError>,
    name: Seq<char>,
    source_id: Option<u32>,
    destination_id: Option<u32>,
    source_draw: Option<u32>,
    destination_draw: Option<u32>,
) -> bool {
    if source_id is None && source_draw is None {
        r matches Err(e) && e == LoopbackError::NoUniqueSourceId
    } else if destination_id is None && destination_draw is None {
        r matches Err(e) && e == LoopbackError::NoUniqueDestinationId
    } else {
        let s = match source_id {
            Some(i) => i,
            None => source_draw->0,
        };
        let d = match destination_id {
            Some(i) => i,
            None => destination_draw->0,
        };
        r matches Ok((loopback, rs, rd)) && rs == s && rd == d && loopback.wf() && loopback@
            == fresh_loopback(name, s, d)
    }
}

proof fn lemma_first_free_skips_taken(d: Seq<u32>, taken: Seq<Option<u32>>, i: int)
    requires
        0 <= i <= d.len(),
        forall|k: int| 0 <= k < i ==> taken.contains(Some(#[trigger] d[k])),
    ensures
        first_free(d, taken) == first_free(d.skip(i), taken),
    decreases i,
{
    if i == 0 {
        assert(d.skip(0) =~= d);
    } else {
        let rest = d.drop_first();
        assert(taken.contains(Some(d[0])));
        assert forall|k: int| 0 <= k < i - 1 implies taken.contains(Some(#[trigger] rest[k])) by {
            assert(rest[k] == d[k + 1]);
        }
        lemma_first_free_skips_taken(rest, taken, i - 1);
        assert(rest.skip(i - 1) =~= d.skip(i));
    }
}

proof fn lemma_first_free_is_free(d: Seq<u32>, taken: Seq<Option<u32>>)
    ensures
        first_free(d, taken) matches Some(v) ==> !taken.contains(Some(v)),
    decreases d.len(),
{
    if d.len() > 0 {
        lemma_first_free_is_free(d.drop_first(), taken);
    }
}

proof fn lemma_search_result(draws: Seq<u32>, taken: Seq<Option<u32>>)
    requires
        is_search(draws, taken),
    ensures
        search_result(first_free(draws, taken), taken),
        first_free(draws, taken) matches Some(v) ==> !taken.contains(Some(v)),
        (forall|i: int| 0 <= i < taken.len() ==> taken[i] is None) ==> first_free(draws, taken) is Some,
{
    lemma_first_free_is_free(draws, taken);
    if forall|i: int| 0 <= i < taken.len() ==> taken[i] is None {
        if draws.len() > 1 {
            assert(taken.contains(Some(draws[0])));
        }
        assert(draws.len() == 1);
        assert(!taken.contains(Some(draws[0])));
    }
}

struct Build {
    name: String,
    release: bool,
    plan: Vec<LoopbackAction>,
    step: usize,
}

/// A virtual MIDI loopback.
pub struct MIDILoopback {
    name: String,
    source_id: u32,
    destination_id: u32,
    additional_dest_ids: (Option<u32>, Option<u32>),
    published: bool,
    build: Option<Build>,
}

impl View for MIDILoopback {
    type V = LoopbackModel;

    closed spec fn view(&self) -> LoopbackModel {
        LoopbackModel {
            name: self.name@,
            source_id: self.source_id,
            destination_id: self.destination_id,
            additional_dest_ids: self.additional_dest_ids,
            published: self.published,
            build: match self.build {
                Some(b) => Some(BuildModel { name: b.name@, release: b.release, step: b.step as nat }),
                None => None,
            },
        }
    }
}

/// The value that a unique id takes as a CoreMIDI integer property.
pub fn unique_id_property(id: u32) -> (value: i32)
    ensures
        value == id as i32,
        value as int == if id < 0x8000_0000 {
            id as int
        } else {
            id as int - 0x1_0000_0000
        },
{
    let value = id as i32;
    assert(value as int == if id < 0x8000_0000 {
        id as int
    } else {
        id as int - 0x1_0000_0000
    }) by (bit_vector)
        requires
            value == id as i32,
    ;
    value
}

fn plan_of(
    release: bool,
    source_id: u32,
    destination_id: u32,
    additional: (Option<u32>, Option<u32>),
) -> (plan: Vec<LoopbackAction>)
    ensures
        plan@ == plan_for(release, source_id, destination_id, additional),
{
    let mut plan: Vec<LoopbackAction> = Vec::new();
    if release {
        plan.push(LoopbackAction::ReleaseDestination);
    }
    plan.push(LoopbackAction::CreateSource);
    plan.push(LoopbackAction::SetSourceUniqueId(unique_id_property(source_id)));
    let ghost head = plan@;
    if let Some(id) = additional.0 {
        plan.push(LoopbackAction::LocateDestination(id));
        plan.push(LoopbackAction::CreateOutputPort);
    }
    assert(plan@ == head + locate_steps(additional.0));
    let ghost mid = plan@;
    if let Some(id) = additional.1 {
        plan.push(LoopbackAction::LocateDestination(id));
        plan.push(LoopbackAction::CreateOutputPort);
    }
    assert(plan@ == mid + locate_steps(additional.1));
    plan.push(LoopbackAction::CreateDestination);
    plan.push(LoopbackAction::SetDestinationUniqueId(unique_id_property(destination_id)));
    assert(plan@ =~= plan_for(release, source_id, destination_id, additional));
    plan
}

impl MIDILoopback {
    /// The loopback's build, if any, follows its plan.
    pub closed spec fn wf(&self) -> bool {
        &&& self@.valid()
        &&& self.build matches Some(b) ==> b.plan@ == self@.plan()
    }

    /// Starts a loopback under `name`. A missing source or destination id is drawn at
    /// random among the ids that no endpoint in `taken` carries: the source's first,
    /// the destination's only where the source has an id. The loopback comes back
    /// unpublished, with a build in progress that publishes it.
    pub fn new(name: &str, source_id: Option<u32>, destination_id: Option<u32>, taken: &Vec<Option<u32>>) -> (r: Result<(MIDILoopback, u32, u32), LoopbackError>)
        ensures
            exists|source_draw: Option<u32>, destination_draw: Option<u32>|
                #![trigger start_outcome(r, name@, source_id, destination_id, source_draw, destination_draw)]
                {
                    &&& source_id is None ==> search_result(source_draw, taken@)
                    &&& destination_id is None && (source_id is Some || source_draw is Some)
                        ==> search_result(destination_draw, taken@)
                    &&& start_outcome(
                        r,
                        name@,
                        source_id,
                        destination_id,
                        source_draw,
                        destination_draw,
                    )
                },
            source_id is Some && destination_id is Some ==> r is Ok,
            (forall|i: int| 0 <= i < taken@.len() ==> taken@[i] is None) ==> r is Ok,
    {
        let source_draw = match source_id {
            Some(_) => None,
            None => Self::make_unique_id(taken),
        };
        let destination_draw = if destination_id.is_none() && (source_id.is_some()
            || source_draw.is_some()) {
            Self::make_unique_id(taken)
        } else {
            None
        };
        Self::start_with_draws(name, source_id, destination_id, source_draw, destination_draw)
    }

    /// Starts a loopback under `name` from the outcomes of the searches for free ids:
    /// a missing source id is `source_draw`, a missing destination id is
    /// `destination_draw`. A failed source search is reported before anything
    /// else; a failed destination search only where the source has an id.
    pub fn start_with_draws(
        name: &str,
        source_id: Option<u32>,
        destination_id: Option<u32>,
        source_draw: Option<u32>,
        destination_draw: Option<u32>,
    ) -> (r: Result<(MIDILoopback, u32, u32), LoopbackError>)
        ensures
            start_outcome(r, name@, source_id, destination_id, source_draw, destination_draw),
    {
        let source_id = match source_id {
            Some(id) => id,
            None => match source_draw {
                Some(id) => id,
                None => return Err(LoopbackError::NoUniqueSourceId),
            },
        };
        let destination_id = match destination_id {
            Some(id) => id,
            None => match destination_draw {
                Some(id) => id,
                None => return Err(LoopbackError::NoUniqueDestinationId),
            },
        };
        let build = Build {
            name: name.to_owned(),
            release: false,
            plan: plan_of(false, source_id, destination_id, (None, None)),
            step: 0,
        };
        let loopback = MIDILoopback {
            name: name.to_owned(),
            source_id,
            destination_id,
            additional_dest_ids: (None, None),
            published: false,
            build: Some(build),
        };
        Ok((loopback, source_id, destination_id))
    }

    /// Starts publishing the loopback under a new name, in place of any build in
    /// progress. The published destination is released first; the name changes
    /// when the build has succeeded.
    pub fn rename(&mut self, name: &str)
        requires
            old(self).wf(),
        ensures
            final(self).wf(),
            final(self)@ == old(self)@.rebuilt(name@),
    {
        let plan = plan_of(self.published, self.source_id, self.destination_id, self.additional_dest_ids);
        self.build = Some(Build { name: name.to_owned(), release: self.published, plan, step: 0 });
        self.published = false;
    }

    /// Sets the destinations that the loopback also forwards to, and starts
    /// publishing it again under its name with them, in place of any build in
    /// progress.
    pub fn set_additional_destinations(&mut self, id1: Option<u32>, id2: Option<u32>)
        requires
            old(self).wf(),
        ensures
            final(self).wf(),
            final(self)@ == old(self)@.rewired(id1, id2),
    {
        self.additional_dest_ids = (id1, id2);
        let plan = plan_of(self.published, self.source_id, self.destination_id, self.additional_dest_ids);
        self.build = Some(Build { name: self.name.clone(), release: self.published, plan, step: 0 });
        self.published = false;
    }

    /// The operation to perform next, if a build is in progress.
    pub fn next_action(&self) -> (action: Option<LoopbackAction>)
        requires
            self.wf(),
        ensures
            action == self@.pending(),
    {
        match &self.build {
            Some(b) => Some(b.plan[b.step]),
            None => None,
        }
    }

    /// The name that the build in progress publishes under; the loopback's name
    /// where no build is in progress.
    pub fn build_name(&self) -> (name: &str)
        ensures
            name@ == (match self@.build {
                Some(b) => b.name,
                None => self@.name,
            }),
    {
        match &self.build {
            Some(b) => b.name.as_str(),
            None => self.name.as_str(),
        }
    }

    /// Reports how the pending operation went, and answers whether the build goes
    /// on (`None`), has published the loopback (`Some(Ok)`) or has failed. Where no
    /// build is in progress there is nothing to report on: the loopback stays as
    /// it is and the answer is `None`.
    pub fn report(&mut self, outcome: StepOutcome) -> (r: Option<Result<(), LoopbackError>>)
        requires
            old(self).wf(),
            outcome is NotFound ==> old(self)@.pending() matches Some(
                LoopbackAction::LocateDestination(_),
            ),
        ensures
            final(self).wf(),
            old(self)@.build is Some ==> final(self)@ == old(self)@.after(outcome) && r == old(
                self,
            )@.report_result(outcome),
            old(self)@.build is None ==> final(self)@ == old(self)@ && r is None,
    {
        let mut build = match self.build.take() {
            Some(build) => build,
            None => return None,
        };
        match outcome {
            StepOutcome::Done => {
                if build.step + 1 < build.plan.len() {
                    build.step = build.step + 1;
                    self.build = Some(build);
                    None
                } else {
                    self.name = build.name;
                    self.published = true;
                    Some(Ok(()))
                }
            },
            StepOutcome::Failed(status) => {
                self.published = false;
                Some(Err(LoopbackError::CoreMidi(status)))
            },
            StepOutcome::NotFound => {
                let id = match build.plan[build.step] {
                    LoopbackAction::LocateDestination(id) => id,
                    _ => 0,
                };
                self.published = false;
                Some(Err(LoopbackError::DestinationNotFound(id)))
            },
        }
    }

    /// The loopback's name.
    pub fn get_name(&self) -> (name: &str)
        ensures
            name@ == self@.name,
    {
        self.name.as_str()
    }

    /// The unique id of the loopback's source.
    pub fn get_unique_id(&self) -> (id: u32)
        ensures
            id == self@.source_id,
    {
        self.source_id
    }

    /// The unique id of the first destination displayed under `name`, if that
    /// endpoint has one; `None` where no destination is displayed under `name`.
    pub fn find_destination_id_by_name(destinations: &Vec<EndpointInfo>, name: &str) -> (id: Option<u32>)
        ensures
            (forall|j: int| 0 <= j < destinations@.len() ==> !displayed_as(destinations@[j], name@))
                ==> id is None,
            forall|i: int|
                0 <= i < destinations@.len() && displayed_as(destinations@[i], name@) && (forall|j: int|
                    0 <= j < i ==> !displayed_as(destinations@[j], name@)) ==> id
                    == destinations@[i].unique_id,
    {
        let target = name.to_owned();
        let mut i: usize = 0;
        while i < destinations.len()
            invariant
                i <= destinations@.len(),
                target@ == name@,
                forall|j: int| 0 <= j < i ==> !displayed_as(destinations@[j], name@),
            decreases destinations@.len() - i,
        {
            let endpoint = &destinations[i];
            match &endpoint.display_name {
                Some(n) => {
                    if n.eq(&target) {
                        return endpoint.unique_id;
                    }
                },
                None => {},
            }
            i += 1;
        }
        None
    }

    /// Draws random ids, up to 10000 times, until one is carried by no endpoint in
    /// `taken`, and returns it; `None` where every draw was taken.
    pub fn make_unique_id(taken: &Vec<Option<u32>>) -> (id: Option<u32>)
        ensures
            search_result(id, taken@),
            id matches Some(v) ==> !taken@.contains(Some(v)),
            (forall|i: int| 0 <= i < taken@.len() ==> taken@[i] is None) ==> id is Some,
    {
        let mut draws: Vec<u32> = Vec::new();
        loop
            invariant_except_break
                draws@.len() < UNIQUE_ID_ATTEMPTS,
                forall|k: int| 0 <= k < draws@.len() ==> taken@.contains(Some(#[trigger] draws@[k])),
            ensures
                is_search(draws@, taken@),
            decreases UNIQUE_ID_ATTEMPTS - draws@.len(),
        {
            let candidate = random_u32();
            draws.push(candidate);
            if id_is_free(candidate, taken) || draws.len() == UNIQUE_ID_ATTEMPTS {
                break ;
            }
        }
        let id = Self::first_free_draw(&draws, taken);
        proof {
            assert(capped(draws@) == draws@);
            lemma_search_result(draws@, taken@);
        }
        id
    }

    /// The first of the drawn ids, among the first 10000, that no endpoint in `taken`
    /// carries; `None` where each of them is taken.
    pub fn first_free_draw(draws: &Vec<u32>, taken: &Vec<Option<u32>>) -> (id: Option<u32>)
        ensures
            id == first_free(capped(draws@), taken@),
    {
        let ghost d = capped(draws@);
        let mut i: usize = 0;
        while i < draws.len() && i < UNIQUE_ID_ATTEMPTS
            invariant
                d == capped(draws@),
                i <= d.len(),
                forall|k: int| 0 <= k < i ==> taken@.contains(Some(#[trigger] d[k])),
            decreases draws@.len() - i,
        {
            if id_is_free(draws[i], taken) {
                proof {
                    lemma_first_free_skips_taken(d, taken@, i as int);
                }
                return Some(draws[i]);
            }
            i += 1;
        }
        proof {
            lemma_first_free_skips_taken(d, taken@, i as int);
        }
        None
    }
}

/// A random `u32` from the thread's generator (`rand::random`). Nothing is
/// promised of the value. The call panics only where the operating system's
/// random source fails, when it first seeds that generator or when the generator
/// reseeds itself from it later; no argument can rule that out.
#[verifier::external_body]
fn random_u32() -> u32 {
    rand::random::<u32>()
}

} // verus!
