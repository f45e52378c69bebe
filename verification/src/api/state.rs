//! What the layer knows of the host once the host has started it.

use vstd::prelude::*;

verus! {

/// The addresses that the host passed at start-up: its parameter block, and
/// the data block that the parameter block points to.
#[derive(Clone, Copy, Debug, PartialEq, Eq, Structural)]
pub struct API {
    param: usize,
    sdk: usize,
}

/// The one place that holds the [`API`] of the process. It is empty until
/// the host starts the layer, is filled once, and is only read after that.
#[derive(Debug)]
pub struct Instance {
    api: Option<API>,
}

impl View for Instance {
    type V = Option<API>;

    closed spec fn view(&self) -> Option<API> {
        self.api
    }
}

impl Instance {
    /// An instance that the host has not started yet.
    pub fn new() -> (instance: Self)
        ensures
            instance@ is None,
    {
        Instance { api: None }
    }

    /// Tells whether the host has started the layer.
    pub fn is_initialized(&self) -> (yes: bool)
        ensures
            yes == (self@ is Some),
    {
        self.api.is_some()
    }
}

impl API {
    /// The address of the host's parameter block.
    pub closed spec fn param_addr(&self) -> usize {
        self.param
    }

    /// The address of the host's data block.
    pub closed spec fn sdk_addr(&self) -> usize {
        self.sdk
    }

    /// The state with the two addresses given.
    pub closed spec fn of(param: usize, sdk: usize) -> API {
        API { param, sdk }
    }

    /// The two addresses of a state are the ones it was made of.
    pub proof fn lemma_of(param: usize, sdk: usize)
        ensures
            Self::of(param, sdk).param_addr() == param,
            Self::of(param, sdk).sdk_addr() == sdk,
    {
    }

    /// What a start with the two addresses leaves in an instance that held
    /// `held`: the first start fills the instance, every later one changes
    /// nothing.
    pub open spec fn started(held: Option<API>, param: usize, sdk: usize) -> Option<API> {
        match held {
            Some(api) => Some(api),
            None => Some(Self::of(param, sdk)),
        }
    }

    /// Starts the layer with the addresses of the host's parameter block and
    /// data block. Starting a second time changes nothing.
    pub fn initialize(instance: &mut Instance, param: usize, sdk: usize)
        ensures
            final(instance)@ == Self::started(old(instance)@, param, sdk),
    {
        if instance.api.is_none() {
            instance.api = Some(API { param, sdk });
        }
    }

    /// The state of the started layer. Nothing of the layer may be used
    /// before the host has started it.
    pub fn get(instance: &Instance) -> (api: Self)
        requires
            instance@ is Some,
        ensures
            Some(api) == instance@,
    {
        match instance.api {
            Some(api) => api,
            None => API { param: 0, sdk: 0 },
        }
    }

    /// The state of the layer if the host has started it.
    pub fn try_get(instance: &Instance) -> (api: Option<Self>)
        ensures
            api == instance@,
    {
        instance.api
    }

    /// The address of the host's parameter block.
    pub fn param(&self) -> (addr: usize)
        ensures
            addr == self.param_addr(),
    {
        self.param
    }

    /// The address of the host's data block.
    pub fn sdk(&self) -> (addr: usize)
        ensures
            addr == self.sdk_addr(),
    {
        self.sdk
    }
}

/// Starting is idempotent: a second start, with whatever addresses, leaves
/// what the first start left.
pub proof fn lemma_started_once(
    held: Option<API>,
    param: usize,
    sdk: usize,
    param2: usize,
    sdk2: usize,
)
    ensures
        API::started(API::started(held, param, sdk), param2, sdk2) == API::started(
            held,
            param,
            sdk,
        ),
        API::started(held, param, sdk) is Some,
{
}

} // verus!
