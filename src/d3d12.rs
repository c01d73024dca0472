use vstd::prelude::*;

verus! {

/// Declares windows' `IDXGIFactory4` (a COM interface pointer) so that a
/// supplied factory can be held and handed back. Nothing is assumed of it: it
/// is carried, never inspected.
#[verifier::external_type_specification]
#[verifier::external_body]
pub struct ExFactory(windows::Win32::Graphics::Dxgi::IDXGIFactory4);

/// `DXGI_CREATE_FACTORY_DEBUG`: asks for a factory with debug instrumentation.
pub const FACTORY_DEBUG_FLAG: u32 = 0x01;

/// Configuration of how the graphics factory and the logical device are made.
pub struct DeviceFactory {
    factory: Option<windows::Win32::Graphics::Dxgi::IDXGIFactory4>,
    enable_debug_layer: bool,
    use_warp: bool,
}

impl DeviceFactory {
    pub closed spec fn debug_layer_spec(&self) -> bool {
        self.enable_debug_layer
    }

    pub closed spec fn warp_spec(&self) -> bool {
        self.use_warp
    }

    pub closed spec fn has_factory(&self) -> bool {
        self.factory is Some
    }

    /// A factory with no supplied DXGI factory, hardware adapters, and the
    /// debug layer on exactly for debug builds.
    pub fn new(debug_build: bool) -> (r: Self)
        ensures
            r.debug_layer_spec() == debug_build,
            !r.warp_spec(),
            !r.has_factory(),
    {
        DeviceFactory { factory: None, enable_debug_layer: debug_build, use_warp: false }
    }

    pub fn dxgi_factory(&mut self, factory: windows::Win32::Graphics::Dxgi::IDXGIFactory4) -> (r: &mut Self)
        ensures
            r.has_factory(),
            r.debug_layer_spec() == old(self).debug_layer_spec(),
            r.warp_spec() == old(self).warp_spec(),
            *final(self) == *final(r),
    {
        self.factory = Some(factory);
        self
    }

    pub fn enable_debug_layer(&mut self, enable: bool) -> (r: &mut Self)
        ensures
            r.debug_layer_spec() == enable,
            r.warp_spec() == old(self).warp_spec(),
            r.has_factory() == old(self).has_factory(),
            *final(self) == *final(r),
    {
        self.enable_debug_layer = enable;
        self
    }

    pub fn use_warp_adapter(&mut self, use_warp: bool) -> (r: &mut Self)
        ensures
            r.warp_spec() == use_warp,
            r.debug_layer_spec() == old(self).debug_layer_spec(),
            r.has_factory() == old(self).has_factory(),
            *final(self) == *final(r),
    {
        self.use_warp = use_warp;
        self
    }

    /// The steps that produce the factory and the device, in the order they
    /// must run: the debug layer (if any) is enabled before any device exists,
    /// then the factory is taken or created, then an adapter is chosen.
    pub fn create(self) -> (r: CreatePlan)
        ensures
            r.enable_debug_layer == self.debug_layer_spec(),
            r.factory is Supplied <==> self.has_factory(),
            r.factory matches FactorySource::Create { flags }
                ==> flags == (if self.debug_layer_spec() { FACTORY_DEBUG_FLAG } else { 0 }),
            r.adapter == (if self.warp_spec() { AdapterSource::Warp } else { AdapterSource::Hardware }),
            r.feature_level == MIN_FEATURE_LEVEL,
    {
        let factory = match self.factory {
            Some(factory) => FactorySource::Supplied(factory),
            None => {
                let flags: u32 = if self.enable_debug_layer { FACTORY_DEBUG_FLAG } else { 0 };
                FactorySource::Create { flags }
            },
        };
        let adapter = if self.use_warp { AdapterSource::Warp } else { AdapterSource::Hardware };
        CreatePlan {
            enable_debug_layer: self.enable_debug_layer,
            factory,
            adapter,
            feature_level: MIN_FEATURE_LEVEL,
        }
    }
}

/// `D3D_FEATURE_LEVEL_11_0`: the lowest feature level a device is created at.
pub const MIN_FEATURE_LEVEL: i32 = 0xb000;

/// Where the DXGI factory comes from.
pub enum FactorySource {
    /// The factory handed to the builder.
    Supplied(windows::Win32::Graphics::Dxgi::IDXGIFactory4),
    /// A new factory, made with these creation flags.
    Create { flags: u32 },
}

#[derive(Clone, Copy, Debug, PartialEq, Eq, Structural)]
pub enum AdapterSource {
    /// The software (WARP) adapter, taken directly.
    Warp,
    /// The first hardware adapter that supports the feature level; see
    /// [`AdapterSearch`].
    Hardware,
}

/// What [`DeviceFactory::create`] decided.
pub struct CreatePlan {
    pub enable_debug_layer: bool,
    pub factory: FactorySource,
    pub adapter: AdapterSource,
    pub feature_level: i32,
}

/// `DXGI_ADAPTER_FLAG_SOFTWARE`: the adapter is the basic render driver.
pub const ADAPTER_FLAG_SOFTWARE: u32 = 0x02;

pub open spec fn is_software_spec(flags: u32) -> bool {
    flags & ADAPTER_FLAG_SOFTWARE != 0
}

/// Whether an adapter description's flags mark it as a software adapter.
pub fn is_software_adapter(flags: u32) -> (r: bool)
    ensures
        r == is_software_spec(flags),
{
    flags & ADAPTER_FLAG_SOFTWARE != 0
}

/// Why an adapter was passed over by the search.
#[derive(Clone, Copy, Debug, PartialEq, Eq, Structural)]
pub enum Rejection {
    Software,
    Unsupported,
}

/// What the search asks the caller to do next, or its outcome.
#[derive(Clone, Copy, Debug, PartialEq, Eq, Structural)]
pub enum SearchAction {
    /// Enumerate the adapter at this index and report its flags.
    Describe(u32),
    /// Probe device creation on the adapter at this index, without keeping the
    /// device, and report whether it succeeded.
    Probe(u32),
    /// The adapter at this index is the one to use.
    Select(u32),
    /// No adapter qualifies.
    NoSuitableAdapter,
}

/// What the caller learned from carrying out the last action.
#[derive(Clone, Copy, Debug, PartialEq, Eq, Structural)]
pub enum AdapterEvent {
    /// The adapter exists and has these description flags.
    Described { flags: u32 },
    /// There is no adapter at the index asked for.
    EndOfList,
    /// Outcome of the device-creation probe.
    Probed { supported: bool },
}

#[derive(Clone, Copy, Debug, PartialEq, Eq, Structural)]
pub enum SearchPhase {
    Describing,
    Probing,
    Found,
    Exhausted,
}

/// The hardware adapter search: adapters are visited in index order, software
/// adapters are skipped, and the first one whose probe succeeds is selected.
/// The search ends with [`SearchAction::NoSuitableAdapter`] when the
/// enumeration runs out, so it never loops without bound.
pub struct AdapterSearch {
    index: u32,
    phase: SearchPhase,
    rejected: Ghost<Seq<Rejection>>,
}

impl AdapterSearch {
    pub closed spec fn index_spec(&self) -> u32 {
        self.index
    }

    pub closed spec fn phase_spec(&self) -> SearchPhase {
        self.phase
    }

    /// The verdict on each adapter passed over so far, by index.
    pub closed spec fn rejected_spec(&self) -> Seq<Rejection> {
        self.rejected@
    }

    pub closed spec fn wf(&self) -> bool {
        match self.phase {
            SearchPhase::Exhausted => self.rejected@.len() == self.index
                || self.rejected@.len() == self.index + 1,
            _ => self.rejected@.len() == self.index,
        }
    }

    /// The action that the current state asks for.
    pub open spec fn request_spec(&self) -> SearchAction {
        match self.phase_spec() {
            SearchPhase::Describing => SearchAction::Describe(self.index_spec()),
            SearchPhase::Probing => SearchAction::Probe(self.index_spec()),
            SearchPhase::Found => SearchAction::Select(self.index_spec()),
            SearchPhase::Exhausted => SearchAction::NoSuitableAdapter,
        }
    }

    pub fn new() -> (r: Self)
        ensures
            r.wf(),
            r.index_spec() == 0,
            r.phase_spec() == SearchPhase::Describing,
            r.rejected_spec() == Seq::<Rejection>::empty(),
    {
        AdapterSearch { index: 0, phase: SearchPhase::Describing, rejected: Ghost(Seq::empty()) }
    }

    /// The action that the current state asks for.
    pub fn request(&self) -> (r: SearchAction)
        ensures
            r == self.request_spec(),
    {
        match self.phase {
            SearchPhase::Describing => SearchAction::Describe(self.index),
            SearchPhase::Probing => SearchAction::Probe(self.index),
            SearchPhase::Found => SearchAction::Select(self.index),
            SearchPhase::Exhausted => SearchAction::NoSuitableAdapter,
        }
    }

    /// Passes over the current adapter and moves to the next index.
    fn reject(&mut self, why: Rejection)
        requires
            old(self).wf(),
            old(self).phase != SearchPhase::Exhausted,
        ensures
            final(self).wf(),
            final(self).rejected_spec() == old(self).rejected_spec().push(why),
            old(self).index < u32::MAX ==> final(self).index == old(self).index + 1
                && final(self).phase == SearchPhase::Describing,
            old(self).index == u32::MAX ==> final(self).index == old(self).index
                && final(self).phase == SearchPhase::Exhausted,
    {
        self.rejected = Ghost(self.rejected@.push(why));
        if self.index < u32::MAX {
            self.index = self.index + 1;
            self.phase = SearchPhase::Describing;
        } else {
            self.phase = SearchPhase::Exhausted;
        }
    }

    /// Takes the answer to the last request and returns the next one. An event
    /// that does not answer the pending request leaves the search unchanged.
    pub fn step(&mut self, event: AdapterEvent) -> (r: SearchAction)
        requires
            old(self).wf(),
        ensures
            final(self).wf(),
            r == final(self).request_spec(),
            match (old(self).phase_spec(), event) {
                (SearchPhase::Describing, AdapterEvent::Described { flags }) =>
                    if is_software_spec(flags) {
                        final(self).rejected_spec() == old(self).rejected_spec().push(Rejection::Software)
                        && advanced(old(self).index_spec(), final(self).index_spec(), final(self).phase_spec())
                    } else {
                        final(self).rejected_spec() == old(self).rejected_spec()
                        && final(self).index_spec() == old(self).index_spec()
                        && final(self).phase_spec() == SearchPhase::Probing
                    },
                (SearchPhase::Describing, AdapterEvent::EndOfList) =>
                    final(self).rejected_spec() == old(self).rejected_spec()
                    && final(self).index_spec() == old(self).index_spec()
                    && final(self).phase_spec() == SearchPhase::Exhausted,
                (SearchPhase::Probing, AdapterEvent::Probed { supported }) =>
                    if supported {
                        final(self).rejected_spec() == old(self).rejected_spec()
                        && final(self).index_spec() == old(self).index_spec()
                        && final(self).phase_spec() == SearchPhase::Found
                    } else {
                        final(self).rejected_spec() == old(self).rejected_spec().push(Rejection::Unsupported)
                        && advanced(old(self).index_spec(), final(self).index_spec(), final(self).phase_spec())
                    },
                _ => *final(self) == *old(self),
            },
    {
        match (self.phase, event) {
            (SearchPhase::Describing, AdapterEvent::Described { flags }) => {
                if is_software_adapter(flags) {
                    self.reject(Rejection::Software);
                } else {
                    self.phase = SearchPhase::Probing;
                }
            },
            (SearchPhase::Describing, AdapterEvent::EndOfList) => {
                self.phase = SearchPhase::Exhausted;
            },
            (SearchPhase::Probing, AdapterEvent::Probed { supported }) => {
                if supported {
                    self.phase = SearchPhase::Found;
                } else {
                    self.reject(Rejection::Unsupported);
                }
            },
            _ => {},
        }
        self.request()
    }
}

/// After passing over adapter `old_index`: the next index is described, or,
/// at the end of the index range, the search is exhausted.
pub open spec fn advanced(old_index: u32, new_index: u32, phase: SearchPhase) -> bool {
    if old_index < u32::MAX {
        new_index == old_index + 1 && phase == SearchPhase::Describing
    } else {
        new_index == old_index && phase == SearchPhase::Exhausted
    }
}

/// A selected adapter is the first one not passed over: every adapter before
/// it was rejected, as a software adapter or by a failed probe.
pub proof fn lemma_selected_is_first(search: AdapterSearch)
    requires
        search.wf(),
        search.phase_spec() == SearchPhase::Found,
    ensures
        search.rejected_spec().len() == search.index_spec(),
{
}

} // verus!
