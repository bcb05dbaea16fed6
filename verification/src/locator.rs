//! The resource locator: from an identifier to a native icon handle.
//!
//! The locator is a state machine like the rasterizer. For an icon of a
//! system module it asks for one extraction. For an icon of a module at a
//! path it first asks whether the module is resident in the process; only
//! where it is not, the locator has it loaded, and then owns it: a module
//! that the locator had loaded is released when the work ends, a module
//! that was found resident never is.

use crate::dll_icons::{request_of, IconRequest, RequestModel, ResourceModel, Selector, SelectorModel};
use crate::dll_icons::{locate_request, DllIcon};
use crate::error::IconError;
use crate::handles::{
    guarded_by, lemma_releases_add, release_all, releases_of, HandleGuard, HandleKind, NativeHandle,
};
use vstd::prelude::*;

verus! {

/// What the locator waits for.
#[derive(Clone, Copy, Debug, PartialEq, Eq, Structural)]
pub enum LocatorPhase {
    /// For the icon extracted from a system module.
    AwaitExtract,
    /// For the answer whether the module is resident.
    AwaitResident,
    /// For the module to be loaded.
    AwaitLoad,
    /// For the icon loaded from the module.
    AwaitImage,
    /// For nothing: the last action has been given.
    Finished,
}

/// The result of a native operation, as the caller reports it.
#[derive(Clone, Copy, Debug, PartialEq, Eq, Structural)]
pub enum LocatorEvent {
    /// The extraction returned `icon`, null where it failed.
    Extracted { icon: usize, os_code: u32 },
    /// The look-up among the resident modules returned `module`, null where
    /// the module is not resident. The module stays the process's.
    Resident { module: usize },
    /// Loading the module returned `module`, null where it failed. The
    /// locator now owns the module.
    Loaded { module: usize, os_code: u32 },
    /// Loading the icon returned `icon`, null where it failed.
    Image { icon: usize, os_code: u32 },
}

/// What the caller has to do next.
#[derive(Debug)]
pub enum LocatorAction {
    /// Extract the icon at the zero-based `position` of the module `module`.
    ExtractIcon { module: String, position: u32 },
    /// Look the module at `module` up among the resident modules, without
    /// loading it.
    FindResident { module: String },
    /// Load the module at `module`.
    LoadModule { module: String },
    /// Load the icon that `selector` selects in the module `from`, at `size`
    /// by `size` pixels.
    LoadImage { from: usize, selector: Selector, size: i32 },
    /// Release the handles of `release`, in this order, and return `outcome`:
    /// the icon, which is now the caller's, or the failure.
    Finish { outcome: Result<usize, IconError>, release: Vec<NativeHandle> },
}

/// An action with its strings and its list as mathematical values.
pub enum LocatorActionModel {
    ExtractIcon { module: Seq<char>, position: u32 },
    FindResident { module: Seq<char> },
    LoadModule { module: Seq<char> },
    LoadImage { from: usize, selector: SelectorModel, size: i32 },
    Finish { outcome: Result<usize, IconError>, release: Seq<NativeHandle> },
}

impl View for LocatorAction {
    type V = LocatorActionModel;

    open spec fn view(&self) -> LocatorActionModel {
        match *self {
            LocatorAction::ExtractIcon { module, position } => LocatorActionModel::ExtractIcon {
                module: module@,
                position,
            },
            LocatorAction::FindResident { module } => LocatorActionModel::FindResident {
                module: module@,
            },
            LocatorAction::LoadModule { module } => LocatorActionModel::LoadModule {
                module: module@,
            },
            LocatorAction::LoadImage { from, selector, size } => LocatorActionModel::LoadImage {
                from,
                selector: selector@,
                size,
            },
            LocatorAction::Finish { outcome, release } => LocatorActionModel::Finish {
                outcome,
                release: release@,
            },
        }
    }
}

/// The state of the locator: what it waits for, the module that it had
/// loaded (zero where it had none loaded), and the request it works on.
pub struct LocatorState {
    pub phase: LocatorPhase,
    pub owned: usize,
    pub module: Seq<char>,
    pub selector: SelectorModel,
    pub size: i32,
}

/// The module that a state owns.
pub open spec fn owned_by(s: LocatorState) -> Seq<NativeHandle> {
    seq![NativeHandle { kind: HandleKind::Module, raw: s.owned }]
}

/// The handles that pass to the locator with an event: a module that was
/// loaded, and an icon that the locator did not wait for. An icon that it
/// waited for passes on to the caller, and a resident module stays the
/// process's.
pub open spec fn taken(s: LocatorState, e: LocatorEvent) -> Seq<NativeHandle> {
    match e {
        LocatorEvent::Loaded { module, .. } => seq![
            NativeHandle { kind: HandleKind::Module, raw: module },
        ],
        LocatorEvent::Extracted { icon, .. } => if s.phase == LocatorPhase::AwaitExtract {
            Seq::empty()
        } else {
            seq![NativeHandle { kind: HandleKind::Icon, raw: icon }]
        },
        LocatorEvent::Image { icon, .. } => if s.phase == LocatorPhase::AwaitImage {
            Seq::empty()
        } else {
            seq![NativeHandle { kind: HandleKind::Icon, raw: icon }]
        },
        LocatorEvent::Resident { .. } => Seq::empty(),
    }
}

/// The icon that a load or an extraction gave, or the failure where it gave
/// the null handle.
pub open spec fn icon_or_failure(icon: usize, os_code: u32) -> Result<usize, IconError> {
    if icon == 0 {
        Err(IconError::ResourceNotFound { os_code })
    } else {
        Ok(icon)
    }
}

/// The last step: the locator owns nothing any more, and the action releases
/// the module that it had loaded and what passed to it with the event.
pub open spec fn locator_finish(s: LocatorState, e: LocatorEvent, outcome: Result<usize, IconError>) -> (
    LocatorState,
    LocatorActionModel,
) {
    (
        LocatorState { phase: LocatorPhase::Finished, owned: 0, ..s },
        LocatorActionModel::Finish { outcome, release: releases_of(owned_by(s) + taken(s, e)) },
    )
}

/// The state in which the locator starts on a resource, and its first action.
pub open spec fn locator_start(resource: ResourceModel) -> (LocatorState, LocatorActionModel) {
    match request_of(resource) {
        Ok(RequestModel::Extract { module, position }) => (
            LocatorState {
                phase: LocatorPhase::AwaitExtract,
                owned: 0,
                module,
                selector: SelectorModel::Id(0),
                size: 0,
            },
            LocatorActionModel::ExtractIcon { module, position },
        ),
        Ok(RequestModel::Load { module, selector, size }) => (
            LocatorState { phase: LocatorPhase::AwaitResident, owned: 0, module, selector, size },
            LocatorActionModel::FindResident { module },
        ),
        Err(e) => (
            LocatorState {
                phase: LocatorPhase::Finished,
                owned: 0,
                module: Seq::empty(),
                selector: SelectorModel::Id(0),
                size: 0,
            },
            LocatorActionModel::Finish { outcome: Err(e), release: Seq::empty() },
        ),
    }
}

/// The state that follows `s` on the event `e`, and the action to take.
pub open spec fn locator_next(s: LocatorState, e: LocatorEvent) -> (LocatorState, LocatorActionModel) {
    match (s.phase, e) {
        (LocatorPhase::AwaitExtract, LocatorEvent::Extracted { icon, os_code }) => locator_finish(
            s,
            e,
            icon_or_failure(icon, os_code),
        ),
        (LocatorPhase::AwaitResident, LocatorEvent::Resident { module }) => {
            if module != 0 {
                (
                    LocatorState { phase: LocatorPhase::AwaitImage, ..s },
                    LocatorActionModel::LoadImage { from: module, selector: s.selector, size: s.size },
                )
            } else {
                (
                    LocatorState { phase: LocatorPhase::AwaitLoad, ..s },
                    LocatorActionModel::LoadModule { module: s.module },
                )
            }
        },
        (LocatorPhase::AwaitLoad, LocatorEvent::Loaded { module, os_code }) => {
            if module != 0 {
                (
                    LocatorState { phase: LocatorPhase::AwaitImage, owned: module, ..s },
                    LocatorActionModel::LoadImage { from: module, selector: s.selector, size: s.size },
                )
            } else {
                locator_finish(s, e, Err(IconError::ModuleNotFound { os_code }))
            }
        },
        (LocatorPhase::AwaitImage, LocatorEvent::Image { icon, os_code }) => locator_finish(
            s,
            e,
            icon_or_failure(icon, os_code),
        ),
        _ => locator_finish(s, e, Err(IconError::UnexpectedEvent)),
    }
}

/// What holds of every state that the locator reaches: it owns a module only
/// while it waits for the icon of that module.
pub open spec fn locator_consistent(s: LocatorState) -> bool {
    s.phase != LocatorPhase::AwaitImage ==> s.owned == 0
}

/// A copy of a selector.
fn copy_selector(selector: &Selector) -> (copy: Selector)
    ensures
        copy@ == selector@,
{
    match selector {
        Selector::Id(id) => Selector::Id(*id),
        Selector::Name(name) => Selector::Name(name.clone()),
    }
}

/// The locator of one icon.
#[derive(Debug)]
pub struct Locator {
    phase: LocatorPhase,
    owned: HandleGuard,
    module: String,
    selector: Selector,
    size: i32,
}

impl View for Locator {
    type V = LocatorState;

    closed spec fn view(&self) -> LocatorState {
        LocatorState {
            phase: self.phase,
            owned: self.owned@.raw,
            module: self.module@,
            selector: self.selector@,
            size: self.size,
        }
    }
}

impl Locator {
    #[verifier::type_invariant]
    spec fn valid(self) -> bool {
        &&& self.owned@.kind == HandleKind::Module
        &&& locator_consistent(self@)
    }

    /// The selector that the locator looks for, which stays known after a
    /// failure.
    pub fn selector(&self) -> (selector: &Selector)
        ensures
            selector@ == self@.selector,
    {
        &self.selector
    }

    /// The module that the locator looks in, which stays known after a
    /// failure.
    pub fn module(&self) -> (module: &str)
        ensures
            module@ == self@.module,
    {
        self.module.as_str()
    }

    /// Says how to begin the search for the icon that `icon` names.
    pub fn start(icon: &DllIcon) -> (r: (Locator, LocatorAction))
        ensures
            (r.0@, r.1@) == locator_start(icon@),
            locator_consistent(r.0@),
    {
        match locate_request(icon) {
            Ok(IconRequest::Extract { module, position }) => {
                let machine = Locator {
                    phase: LocatorPhase::AwaitExtract,
                    owned: HandleGuard::empty(HandleKind::Module),
                    module: module.clone(),
                    selector: Selector::Id(0),
                    size: 0,
                };
                (machine, LocatorAction::ExtractIcon { module, position })
            },
            Ok(IconRequest::Load { module, selector, size }) => {
                let machine = Locator {
                    phase: LocatorPhase::AwaitResident,
                    owned: HandleGuard::empty(HandleKind::Module),
                    module: module.clone(),
                    selector,
                    size,
                };
                (machine, LocatorAction::FindResident { module })
            },
            Err(e) => {
                let machine = Locator {
                    phase: LocatorPhase::Finished,
                    owned: HandleGuard::empty(HandleKind::Module),
                    module: String::new(),
                    selector: Selector::Id(0),
                    size: 0,
                };
                (machine, LocatorAction::Finish { outcome: Err(e), release: Vec::new() })
            },
        }
    }

    /// Ends the work: releases the module that the locator had loaded, then
    /// what passed to it with the last event, and gives `outcome`.
    fn conclude(self, passed: Vec<HandleGuard>, outcome: Result<usize, IconError>) -> (r: (
        Locator,
        LocatorAction,
    ))
        ensures
            r.0@ == (LocatorState { phase: LocatorPhase::Finished, owned: 0, ..self@ }),
            r.1@ == (LocatorActionModel::Finish {
                outcome,
                release: releases_of(owned_by(self@) + guarded_by(passed@)),
            }),
            locator_consistent(r.0@),
    {
        proof {
            use_type_invariant(&self);
        }
        let Locator { phase: _, owned, module, selector, size } = self;
        let mut passed = passed;
        let mut guards = vec![owned];
        assert(guarded_by(guards@) =~= owned_by(self@));
        let ghost first = guards@;
        let ghost second = passed@;
        guards.append(&mut passed);
        assert(guarded_by(guards@) =~= guarded_by(first) + guarded_by(second));
        let release = release_all(guards);
        let machine = Locator {
            phase: LocatorPhase::Finished,
            owned: HandleGuard::empty(HandleKind::Module),
            module,
            selector,
            size,
        };
        (machine, LocatorAction::Finish { outcome, release })
    }

    /// Takes the result of the operation that the last action asked for, and
    /// says what to do next. An event that the locator does not wait for
    /// ends the work.
    pub fn step(self, event: LocatorEvent) -> (r: (Locator, LocatorAction))
        ensures
            (r.0@, r.1@) == locator_next(self@, event),
            locator_consistent(r.0@),
    {
        proof {
            use_type_invariant(&self);
        }
        let nothing: Vec<HandleGuard> = Vec::new();
        assert(guarded_by(nothing@) =~= Seq::<NativeHandle>::empty());
        match event {
            LocatorEvent::Extracted { icon, os_code } => {
                if self.phase == LocatorPhase::AwaitExtract {
                    if icon == 0 {
                        self.conclude(nothing, Err(IconError::ResourceNotFound { os_code }))
                    } else {
                        self.conclude(nothing, Ok(icon))
                    }
                } else {
                    let passed = vec![HandleGuard::new(HandleKind::Icon, icon)];
                    assert(guarded_by(passed@) =~= taken(self@, event));
                    self.conclude(passed, Err(IconError::UnexpectedEvent))
                }
            },
            LocatorEvent::Resident { module } => {
                if self.phase == LocatorPhase::AwaitResident {
                    if module != 0 {
                        let selector = copy_selector(&self.selector);
                        let size: i32 = self.size;
                        let machine = Locator {
                            phase: LocatorPhase::AwaitImage,
                            owned: self.owned,
                            module: self.module,
                            selector: self.selector,
                            size: self.size,
                        };
                        (machine, LocatorAction::LoadImage { from: module, selector, size })
                    } else {
                        let path = self.module.clone();
                        let machine = Locator {
                            phase: LocatorPhase::AwaitLoad,
                            owned: self.owned,
                            module: self.module,
                            selector: self.selector,
                            size: self.size,
                        };
                        (machine, LocatorAction::LoadModule { module: path })
                    }
                } else {
                    self.conclude(nothing, Err(IconError::UnexpectedEvent))
                }
            },
            LocatorEvent::Loaded { module, os_code } => {
                if self.phase == LocatorPhase::AwaitLoad && module != 0 {
                    let selector = copy_selector(&self.selector);
                    let size: i32 = self.size;
                    let machine = Locator {
                        phase: LocatorPhase::AwaitImage,
                        owned: HandleGuard::new(HandleKind::Module, module),
                        module: self.module,
                        selector: self.selector,
                        size: self.size,
                    };
                    (machine, LocatorAction::LoadImage { from: module, selector, size })
                } else {
                    let passed = vec![HandleGuard::new(HandleKind::Module, module)];
                    assert(guarded_by(passed@) =~= taken(self@, event));
                    if self.phase == LocatorPhase::AwaitLoad {
                        self.conclude(passed, Err(IconError::ModuleNotFound { os_code }))
                    } else {
                        self.conclude(passed, Err(IconError::UnexpectedEvent))
                    }
                }
            },
            LocatorEvent::Image { icon, os_code } => {
                if self.phase == LocatorPhase::AwaitImage {
                    if icon == 0 {
                        self.conclude(nothing, Err(IconError::ResourceNotFound { os_code }))
                    } else {
                        self.conclude(nothing, Ok(icon))
                    }
                } else {
                    let passed = vec![HandleGuard::new(HandleKind::Icon, icon)];
                    assert(guarded_by(passed@) =~= taken(self@, event));
                    self.conclude(passed, Err(IconError::UnexpectedEvent))
                }
            },
        }
    }
}

/// A module that was found resident is used as it is and does not become
/// the locator's: nothing that the locator does afterwards releases it,
/// unless an event hands the same handle over as one that was loaded.
pub proof fn lemma_resident_module_is_kept(s: LocatorState, module: usize, e: LocatorEvent)
    requires
        locator_consistent(s),
        s.phase == LocatorPhase::AwaitResident,
        module != 0,
    ensures
        ({
            let (t, a) = locator_next(s, LocatorEvent::Resident { module });
            &&& a == (LocatorActionModel::LoadImage { from: module, selector: s.selector, size: s.size })
            &&& t.owned == 0
            &&& locator_next(t, e).1 is Finish
            &&& locator_next(t, e).1->release == releases_of(taken(t, e))
        }),
{
    let (t, a) = locator_next(s, LocatorEvent::Resident { module });
    lemma_releases_add(owned_by(t), taken(t, e));
    lemma_releases_of_null_module();
    assert(releases_of(owned_by(t)) + releases_of(taken(t, e)) =~= releases_of(taken(t, e)));
}

/// A module that the locator had loaded is released when the work ends,
/// which is at the next event whatever it is, before anything that passes
/// to the locator with that event.
pub proof fn lemma_loaded_module_is_released(s: LocatorState, module: usize, os_code: u32, e: LocatorEvent)
    requires
        locator_consistent(s),
        s.phase == LocatorPhase::AwaitLoad,
        module != 0,
    ensures
        ({
            let (t, a) = locator_next(s, LocatorEvent::Loaded { module, os_code });
            &&& a == (LocatorActionModel::LoadImage { from: module, selector: s.selector, size: s.size })
            &&& t.owned == module
            &&& locator_next(t, e).1 is Finish
            &&& locator_next(t, e).1->release == seq![
                NativeHandle { kind: HandleKind::Module, raw: module },
            ] + releases_of(taken(t, e))
            &&& locator_next(t, e).0.owned == 0
        }),
{
    let (t, a) = locator_next(s, LocatorEvent::Loaded { module, os_code });
    lemma_releases_add(owned_by(t), taken(t, e));
    crate::handles::lemma_releases_push(Seq::empty(), owned_by(t)[0]);
    lemma_releases_of_nothing();
    assert(Seq::<NativeHandle>::empty().push(owned_by(t)[0]) =~= owned_by(t));
}

proof fn lemma_releases_of_nothing()
    ensures
        releases_of(Seq::empty()) == Seq::<NativeHandle>::empty(),
{
    reveal(Seq::filter);
}

proof fn lemma_releases_of_null_module()
    ensures
        releases_of(seq![NativeHandle { kind: HandleKind::Module, raw: 0 }]) == Seq::<
            NativeHandle,
        >::empty(),
{
    let null = NativeHandle { kind: HandleKind::Module, raw: 0 };
    lemma_releases_of_nothing();
    crate::handles::lemma_releases_push(Seq::empty(), null);
    assert(Seq::<NativeHandle>::empty().push(null) =~= seq![null]);
}

/// In one step, what is released and what stays owned is, counted with
/// multiplicity, what was owned and what passed to the locator with the
/// event.
pub proof fn lemma_locator_step_balance(s: LocatorState, e: LocatorEvent)
    requires
        locator_consistent(s),
    ensures
        locator_consistent(locator_next(s, e).0),
        locator_released(locator_next(s, e).1).to_multiset().add(
            releases_of(owned_by(locator_next(s, e).0)).to_multiset(),
        ) == releases_of(owned_by(s)).to_multiset().add(releases_of(taken(s, e)).to_multiset()),
{
    let (t, a) = locator_next(s, e);
    let nothing = Seq::<NativeHandle>::empty();
    lemma_releases_of_nothing();
    lemma_releases_of_null_module();
    lemma_releases_add(owned_by(s), taken(s, e));
    vstd::seq_lib::lemma_multiset_commutative(releases_of(owned_by(s)), releases_of(taken(s, e)));
    vstd::seq_lib::lemma_multiset_commutative(releases_of(taken(s, e)), releases_of(owned_by(s)));
    vstd::seq_lib::lemma_multiset_commutative(locator_released(a), releases_of(owned_by(t)));
    if a is Finish {
        assert(owned_by(t) =~= seq![NativeHandle { kind: HandleKind::Module, raw: 0 }]);
        assert(locator_released(a) + nothing =~= locator_released(a));
    } else {
        assert(owned_by(s) =~= seq![NativeHandle { kind: HandleKind::Module, raw: 0 }]);
        if e is Loaded {
            assert(owned_by(t) =~= taken(s, e));
        } else {
            assert(owned_by(t) =~= owned_by(s));
        }
        assert(nothing + releases_of(owned_by(t)) =~= releases_of(owned_by(t)));
        assert(nothing + releases_of(taken(s, e)) =~= releases_of(taken(s, e)));
        assert(releases_of(taken(s, e)) + nothing =~= releases_of(taken(s, e)));
    }
}

/// The handles that an action tells the caller to release.
pub open spec fn locator_released(a: LocatorActionModel) -> Seq<NativeHandle> {
    match a {
        LocatorActionModel::Finish { release, .. } => release,
        _ => Seq::empty(),
    }
}

} // verus!
