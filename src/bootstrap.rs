use vstd::prelude::*;

use crate::error::BootstrapError;

verus! {

/// A driver-level resource that the context owns.
#[derive(Debug, Clone, Copy, PartialEq, Eq)]
pub enum Resource {
    /// The validated layer configuration.
    ValidationLayer,
    Instance,
    DebugMessenger,
    Surface,
    /// The logical device with its graphics queue.
    Device,
}

/// One step of the bootstrap sequence.
#[derive(Debug, Clone, Copy, PartialEq, Eq)]
pub enum Step {
    ValidateLayers,
    CreateInstance,
    AttachDebugMessenger,
    CreateSurface,
    SelectAdapter,
    CreateDevice,
}

impl Step {
    /// The resource that the step acquires; adapter selection only borrows.
    pub open spec fn produces(self) -> Option<Resource> {
        match self {
            Step::ValidateLayers => Some(Resource::ValidationLayer),
            Step::CreateInstance => Some(Resource::Instance),
            Step::AttachDebugMessenger => Some(Resource::DebugMessenger),
            Step::CreateSurface => Some(Resource::Surface),
            Step::SelectAdapter => None,
            Step::CreateDevice => Some(Resource::Device),
        }
    }

    pub fn resource(&self) -> (r: Option<Resource>)
        ensures
            r == self.produces(),
    {
        match self {
            Step::ValidateLayers => Some(Resource::ValidationLayer),
            Step::CreateInstance => Some(Resource::Instance),
            Step::AttachDebugMessenger => Some(Resource::DebugMessenger),
            Step::CreateSurface => Some(Resource::Surface),
            Step::SelectAdapter => None,
            Step::CreateDevice => Some(Resource::Device),
        }
    }
}

/// The bootstrap sequence. The layer check comes first in every build; the
/// debug messenger is attached only when validation is enabled.
pub open spec fn bootstrap_steps(validation: bool) -> Seq<Step> {
    if validation {
        seq![
            Step::ValidateLayers,
            Step::CreateInstance,
            Step::AttachDebugMessenger,
            Step::CreateSurface,
            Step::SelectAdapter,
            Step::CreateDevice,
        ]
    } else {
        seq![
            Step::ValidateLayers,
            Step::CreateInstance,
            Step::CreateSurface,
            Step::SelectAdapter,
            Step::CreateDevice,
        ]
    }
}

/// The resources that a run of steps acquires, in order.
pub open spec fn acquired(steps: Seq<Step>) -> Seq<Resource>
    decreases steps.len(),
{
    if steps.len() == 0 {
        Seq::empty()
    } else {
        let before = acquired(steps.drop_last());
        match steps.last().produces() {
            Some(r) => before.push(r),
            None => before,
        }
    }
}

/// What the driver of the machine does next.
#[derive(Debug, PartialEq, Eq)]
pub enum Action {
    /// Run this step and report its outcome.
    Perform(Step),
    /// Every step succeeded; the context is ready.
    Ready,
    /// A step failed: tear down and stop with this error.
    Abort(BootstrapError),
    /// The context is torn down; nothing is left to do.
    Halted,
}

/// The abstract state of a bootstrap.
pub struct BootstrapState {
    pub validation: bool,
    /// How many steps of the sequence succeeded.
    pub completed: nat,
    /// The failure that stopped the sequence, if any.
    pub failure: Option<BootstrapError>,
    pub torn_down: bool,
    /// The live resources, in acquisition order.
    pub live: Seq<Resource>,
}

/// A fresh bootstrap: nothing done, nothing acquired.
pub open spec fn initial_state(validation: bool) -> BootstrapState {
    BootstrapState {
        validation,
        completed: 0,
        failure: None,
        torn_down: false,
        live: Seq::empty(),
    }
}

impl BootstrapState {
    pub open spec fn steps(self) -> Seq<Step> {
        bootstrap_steps(self.validation)
    }

    /// The live resources are exactly those that the completed steps acquired,
    /// and none once torn down.
    pub open spec fn wf(self) -> bool {
        &&& self.completed <= self.steps().len()
        &&& self.torn_down ==> self.live.len() == 0
        &&& !self.torn_down ==> self.live == acquired(self.steps().take(self.completed as int))
    }

    pub open spec fn action(self) -> Action {
        if self.torn_down {
            Action::Halted
        } else {
            match self.failure {
                Some(e) => Action::Abort(e),
                None => if self.completed >= self.steps().len() {
                    Action::Ready
                } else {
                    Action::Perform(self.steps()[self.completed as int])
                },
            }
        }
    }

    /// The state after the outcome of the pending step is reported; with no
    /// step pending, nothing changes.
    pub open spec fn advanced(self, outcome: Result<(), BootstrapError>) -> BootstrapState {
        match self.action() {
            Action::Perform(step) => match outcome {
                Ok(()) => BootstrapState {
                    completed: self.completed + 1,
                    live: match step.produces() {
                        Some(r) => self.live.push(r),
                        None => self.live,
                    },
                    ..self
                },
                Err(e) => BootstrapState { failure: Some(e), ..self },
            },
            _ => self,
        }
    }

    /// The resources that teardown destroys, in order.
    pub open spec fn teardown_trace(self) -> Seq<Resource> {
        self.live.reverse()
    }

    pub open spec fn after_teardown(self) -> BootstrapState {
        BootstrapState { torn_down: true, live: Seq::empty(), ..self }
    }
}

/// The order in which a full bootstrap acquires its resources.
pub open spec fn creation_order(validation: bool) -> Seq<Resource> {
    if validation {
        seq![
            Resource::ValidationLayer,
            Resource::Instance,
            Resource::DebugMessenger,
            Resource::Surface,
            Resource::Device,
        ]
    } else {
        seq![Resource::ValidationLayer, Resource::Instance, Resource::Surface, Resource::Device]
    }
}

/// The state after the first `k` steps of the sequence succeeded.
pub open spec fn after_successes(validation: bool, k: nat) -> BootstrapState
    decreases k,
{
    if k == 0 {
        initial_state(validation)
    } else {
        after_successes(validation, (k - 1) as nat).advanced(Ok(()))
    }
}

/// In `trace`, nothing but the validation-layer state comes after the instance:
/// every instance-derived resource is destroyed before the instance.
pub open spec fn instance_outlives_dependents(trace: Seq<Resource>) -> bool {
    forall|i: int, j: int|
        0 <= i < j < trace.len() && trace[i] == Resource::Instance ==> trace[j]
            == Resource::ValidationLayer
}

proof fn lemma_after_successes(validation: bool, k: nat)
    requires
        k <= bootstrap_steps(validation).len(),
    ensures
        after_successes(validation, k) == (BootstrapState {
            completed: k,
            live: acquired(bootstrap_steps(validation).take(k as int)),
            ..initial_state(validation)
        }),
    decreases k,
{
    let steps = bootstrap_steps(validation);
    if k == 0 {
        assert(steps.take(0) == Seq::<Step>::empty());
    } else {
        lemma_after_successes(validation, (k - 1) as nat);
        assert(steps.take(k as int).drop_last() == steps.take(k - 1));
    }
}

proof fn lemma_acquired_prefix(validation: bool, k: nat)
    requires
        k <= bootstrap_steps(validation).len(),
    ensures
        exists|m: int| 0 <= m <= creation_order(validation).len()
            && acquired(bootstrap_steps(validation).take(k as int)) == creation_order(validation).take(m),
{
    let steps = bootstrap_steps(validation);
    let order = creation_order(validation);
    reveal_with_fuel(acquired, 7);
    if validation {
        assert(steps.take(0).len() == 0);
        assert(steps.take(1) == seq![Step::ValidateLayers]);
        assert(steps.take(2) == seq![Step::ValidateLayers, Step::CreateInstance]);
        assert(steps.take(3) == seq![Step::ValidateLayers, Step::CreateInstance, Step::AttachDebugMessenger]);
        assert(steps.take(4) == seq![
            Step::ValidateLayers,
            Step::CreateInstance,
            Step::AttachDebugMessenger,
            Step::CreateSurface,
        ]);
        assert(steps.take(5) == seq![
            Step::ValidateLayers,
            Step::CreateInstance,
            Step::AttachDebugMessenger,
            Step::CreateSurface,
            Step::SelectAdapter,
        ]);
        assert(steps.take(6) == steps);
        if k == 0 {
            assert(acquired(steps.take(0)) == order.take(0));
        } else if k == 1 {
            assert(acquired(steps.take(1)) == order.take(1));
        } else if k == 2 {
            assert(acquired(steps.take(2)) == order.take(2));
        } else if k == 3 {
            assert(acquired(steps.take(3)) == order.take(3));
        } else if k == 4 {
            assert(acquired(steps.take(4)) == order.take(4));
        } else if k == 5 {
            assert(acquired(steps.take(5)) == order.take(4));
        } else {
            assert(acquired(steps.take(6)) == order.take(5));
        }
    } else {
        assert(steps.take(0).len() == 0);
        assert(steps.take(1) == seq![Step::ValidateLayers]);
        assert(steps.take(2) == seq![Step::ValidateLayers, Step::CreateInstance]);
        assert(steps.take(3) == seq![Step::ValidateLayers, Step::CreateInstance, Step::CreateSurface]);
        assert(steps.take(4) == seq![
            Step::ValidateLayers,
            Step::CreateInstance,
            Step::CreateSurface,
            Step::SelectAdapter,
        ]);
        assert(steps.take(5) == steps);
        if k == 0 {
            assert(acquired(steps.take(0)) == order.take(0));
        } else if k == 1 {
            assert(acquired(steps.take(1)) == order.take(1));
        } else if k == 2 {
            assert(acquired(steps.take(2)) == order.take(2));
        } else if k == 3 {
            assert(acquired(steps.take(3)) == order.take(3));
        } else if k == 4 {
            assert(acquired(steps.take(4)) == order.take(3));
        } else {
            assert(acquired(steps.take(5)) == order.take(4));
        }
    }
}

proof fn lemma_reverse_of_order_prefix(validation: bool, m: int)
    requires
        0 <= m <= creation_order(validation).len(),
    ensures
        instance_outlives_dependents(creation_order(validation).take(m).reverse()),
{
    let p = creation_order(validation).take(m);
    let t = p.reverse();
    assert forall|i: int, j: int|
        0 <= i < j < t.len() && t[i] == Resource::Instance implies t[j] == Resource::ValidationLayer by {
        assert(t[i] == p[m - 1 - i]);
        assert(t[j] == p[m - 1 - j]);
    }
}

/// Destruction mirrors construction: with validation on or off, after any
/// number of successful steps and whether or not the next step then failed, the
/// live resources are a prefix of the creation order and teardown destroys
/// exactly them, last acquired first, the instance after everything derived
/// from it.
pub proof fn lemma_teardown_mirrors_construction(
    validation: bool,
    k: nat,
    failure: Option<BootstrapError>,
)
    requires
        k <= bootstrap_steps(validation).len(),
    ensures
        ({
            let s = match failure {
                Some(e) => after_successes(validation, k).advanced(Err(e)),
                None => after_successes(validation, k),
            };
            &&& s.wf()
            &&& exists|m: int| 0 <= m <= creation_order(validation).len() && s.live
                == creation_order(validation).take(m)
            &&& s.teardown_trace().len() == s.live.len()
            &&& forall|i: int|
                0 <= i < s.live.len() ==> #[trigger] s.teardown_trace()[i] == s.live[s.live.len() - 1
                    - i]
            &&& instance_outlives_dependents(s.teardown_trace())
        }),
{
    lemma_after_successes(validation, k);
    lemma_acquired_prefix(validation, k);
    let s0 = after_successes(validation, k);
    let s = match failure {
        Some(e) => s0.advanced(Err(e)),
        None => s0,
    };
    assert(s.live == s0.live);
    let m = choose|m: int|
        0 <= m <= creation_order(validation).len() && acquired(bootstrap_steps(validation).take(k as int))
            == creation_order(validation).take(m);
    lemma_reverse_of_order_prefix(validation, m);
}

/// A missing validation layer stops the bootstrap at its first step: in every
/// build, layer validation runs first; when it fails the machine aborts with
/// that error, holds nothing, and stays so whatever is reported afterwards, so
/// the instance is never created.
pub proof fn lemma_missing_layer_stops_before_instance(validation: bool, name: String)
    ensures
        initial_state(validation).action() == Action::Perform(Step::ValidateLayers),
        ({
            let s = initial_state(validation).advanced(Err(BootstrapError::MissingValidationLayer(name)));
            &&& s.wf()
            &&& s.action() == Action::Abort(BootstrapError::MissingValidationLayer(name))
            &&& s.live.len() == 0
            &&& forall|o: Result<(), BootstrapError>| #[trigger] s.advanced(o) == s
        }),
{
    assert(bootstrap_steps(validation).take(0) == Seq::<Step>::empty());
}

/// Teardown is idempotent: a torn-down context has nothing left to destroy, a
/// second teardown changes nothing, and no step runs after it.
pub proof fn lemma_teardown_idempotent(s: BootstrapState)
    requires
        s.wf(),
    ensures
        s.after_teardown().wf(),
        s.after_teardown().teardown_trace() == Seq::<Resource>::empty(),
        s.after_teardown().after_teardown() == s.after_teardown(),
        s.after_teardown().action() == Action::Halted,
        forall|o: Result<(), BootstrapError>| #[trigger] s.after_teardown().advanced(o) == s.after_teardown(),
{
    assert(s.after_teardown().teardown_trace() == Seq::<Resource>::empty());
}

/// Drives the construction of the context step by step and owns the record of
/// what was acquired, so that teardown releases it in reverse.
pub struct BootstrapContext {
    validation: bool,
    completed: usize,
    failure: Option<BootstrapError>,
    torn_down: bool,
    live: Vec<Resource>,
}

impl View for BootstrapContext {
    type V = BootstrapState;

    closed spec fn view(&self) -> BootstrapState {
        BootstrapState {
            validation: self.validation,
            completed: self.completed as nat,
            failure: self.failure,
            torn_down: self.torn_down,
            live: self.live@,
        }
    }
}

/// The step at position `i` of the sequence.
fn step_at(validation: bool, i: usize) -> (r: Step)
    requires
        i < bootstrap_steps(validation).len(),
    ensures
        r == bootstrap_steps(validation)[i as int],
{
    if validation {
        if i == 0 {
            Step::ValidateLayers
        } else if i == 1 {
            Step::CreateInstance
        } else if i == 2 {
            Step::AttachDebugMessenger
        } else if i == 3 {
            Step::CreateSurface
        } else if i == 4 {
            Step::SelectAdapter
        } else {
            Step::CreateDevice
        }
    } else {
        if i == 0 {
            Step::ValidateLayers
        } else if i == 1 {
            Step::CreateInstance
        } else if i == 2 {
            Step::CreateSurface
        } else if i == 3 {
            Step::SelectAdapter
        } else {
            Step::CreateDevice
        }
    }
}

fn step_count(validation: bool) -> (r: usize)
    ensures
        r == bootstrap_steps(validation).len(),
{
    if validation {
        6
    } else {
        5
    }
}

impl BootstrapContext {
    pub fn new(validation: bool) -> (r: BootstrapContext)
        ensures
            r@ == initial_state(validation),
            r@.wf(),
    {
        let r = BootstrapContext {
            validation,
            completed: 0,
            failure: None,
            torn_down: false,
            live: Vec::new(),
        };
        assert(bootstrap_steps(validation).take(0) == Seq::<Step>::empty());
        r
    }

    /// What to do next.
    pub fn next_action(&self) -> (r: Action)
        requires
            self@.wf(),
        ensures
            r == self@.action(),
    {
        if self.torn_down {
            Action::Halted
        } else {
            match &self.failure {
                Some(e) => Action::Abort(e.duplicate()),
                None => if self.completed >= step_count(self.validation) {
                    Action::Ready
                } else {
                    Action::Perform(step_at(self.validation, self.completed))
                },
            }
        }
    }

    /// Reports the outcome of the pending step and returns what to do next. A
    /// failure is final: no step runs after it.
    pub fn advance(&mut self, outcome: Result<(), BootstrapError>) -> (r: Action)
        requires
            old(self)@.wf(),
        ensures
            final(self)@ == old(self)@.advanced(outcome),
            final(self)@.wf(),
            r == final(self)@.action(),
    {
        let pending = self.next_action();
        if let Action::Perform(step) = pending {
            match outcome {
                Ok(()) => {
                    let ghost steps = self@.steps();
                    let ghost k = self.completed as int;
                    if let Some(resource) = step.resource() {
                        self.live.push(resource);
                    }
                    self.completed = self.completed + 1;
                    assert(steps.take(k + 1).drop_last() == steps.take(k));
                },
                Err(e) => {
                    self.failure = Some(e);
                },
            }
        }
        self.next_action()
    }

    /// The live resources, in acquisition order.
    pub fn live_resources(&self) -> (r: Vec<Resource>)
        ensures
            r@ == self@.live,
    {
        self.live.clone()
    }

    /// Releases the context: returns the live resources in the reverse of their
    /// acquisition order, for the caller to destroy one by one, and leaves none
    /// live. On a torn-down context it returns nothing.
    pub fn teardown(&mut self) -> (r: Vec<Resource>)
        requires
            old(self)@.wf(),
        ensures
            r@ == old(self)@.teardown_trace(),
            final(self)@ == old(self)@.after_teardown(),
            final(self)@.wf(),
    {
        let n = self.live.len();
        let mut trace: Vec<Resource> = Vec::new();
        let mut i: usize = 0;
        while i < n
            invariant
                n == self.live.len(),
                i <= n,
                trace@.len() == i,
                forall|k: int| 0 <= k < i ==> trace@[k] == self.live@[n - 1 - k],
            decreases n - i,
        {
            trace.push(self.live[n - 1 - i]);
            i += 1;
        }
        assert(trace@ == self.live@.reverse());
        self.live = Vec::new();
        self.torn_down = true;
        trace
    }
}

} // verus!
