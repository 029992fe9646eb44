//! How widgets are configured: every widget model names its configuration
//! type, and a widget is started from a value of it.
use vstd::prelude::*;

verus! {

/// A widget model of the shell, with the type of its configuration.
pub trait ModelExt {
    type Config;
}

/// What a shell widget is started with.
pub struct Init<M: ModelExt> {
    pub config: M::Config,
}

impl<M: ModelExt> Init<M> {
    /// The start value for a configuration.
    pub fn new(config: M::Config) -> (r: Init<M>)
        ensures
            r.config == config,
    {
        Init { config }
    }
}

/// A widget model of the window crate, with the type of its configuration.
pub trait InitExt {
    type Config;
}

/// What a window-crate widget is started with.
pub struct PanelInit<M: InitExt> {
    pub config: M::Config,
}

impl<M: InitExt> PanelInit<M> {
    /// The start value for a configuration.
    pub fn new(config: M::Config) -> (r: PanelInit<M>)
        ensures
            r.config == config,
    {
        PanelInit { config }
    }
}

} // verus!
