//! Parameters of the one-shot relay mode: which configuration payload each
//! side receives, whether the binding is bidirectional, and the requested
//! blocking mode. The mode itself spawns threads and joins them, which is
//! the host's work; the parameter record and its builder are verified here.

use vstd::prelude::*;

use crate::sock::SocketParams;

verus! {

/// Parameters for one relay binding.
pub struct OnelinerModeParams {
    /// Configuration payload of the input side.
    pub f_params: SocketParams,
    /// Configuration payload of the output side.
    pub to_params: SocketParams,
    /// Whether to bind both directions.
    pub bidir: bool,
    /// The blocking mode requested for the input side (unidirectional only;
    /// a bidirectional binding is always non-blocking).
    pub blocking: bool,
}

/// Builds the parameter record, with every field optional: payloads default
/// to empty, the binding to unidirectional, the input to blocking.
pub struct OnelinerModeParamsBuilder {
    f_params: Option<SocketParams>,
    to_params: Option<SocketParams>,
    bidir: Option<bool>,
    blocking: Option<bool>,
}

impl OnelinerModeParamsBuilder {
    pub fn new() -> (r: Self)
        ensures
            r.f_params_spec() is None,
            r.to_params_spec() is None,
            r.bidir_spec() is None,
            r.blocking_spec() is None,
    {
        OnelinerModeParamsBuilder { f_params: None, to_params: None, bidir: None, blocking: None }
    }

    pub closed spec fn f_params_spec(&self) -> Option<SocketParams> {
        self.f_params
    }

    pub closed spec fn to_params_spec(&self) -> Option<SocketParams> {
        self.to_params
    }

    pub closed spec fn bidir_spec(&self) -> Option<bool> {
        self.bidir
    }

    pub closed spec fn blocking_spec(&self) -> Option<bool> {
        self.blocking
    }

    pub fn f_params(self, value: SocketParams) -> (r: Self)
        ensures
            r.f_params_spec() == Some(value),
            r.to_params_spec() == self.to_params_spec(),
            r.bidir_spec() == self.bidir_spec(),
            r.blocking_spec() == self.blocking_spec(),
    {
        OnelinerModeParamsBuilder { f_params: Some(value), ..self }
    }

    pub fn to_params(self, value: SocketParams) -> (r: Self)
        ensures
            r.to_params_spec() == Some(value),
            r.f_params_spec() == self.f_params_spec(),
            r.bidir_spec() == self.bidir_spec(),
            r.blocking_spec() == self.blocking_spec(),
    {
        OnelinerModeParamsBuilder { to_params: Some(value), ..self }
    }

    pub fn bidir(self, value: bool) -> (r: Self)
        ensures
            r.bidir_spec() == Some(value),
            r.f_params_spec() == self.f_params_spec(),
            r.to_params_spec() == self.to_params_spec(),
            r.blocking_spec() == self.blocking_spec(),
    {
        OnelinerModeParamsBuilder { bidir: Some(value), ..self }
    }

    pub fn blocking(self, value: bool) -> (r: Self)
        ensures
            r.blocking_spec() == Some(value),
            r.f_params_spec() == self.f_params_spec(),
            r.to_params_spec() == self.to_params_spec(),
            r.bidir_spec() == self.bidir_spec(),
    {
        OnelinerModeParamsBuilder { blocking: Some(value), ..self }
    }

    /// The finished record: set fields are kept, unset fields take their
    /// defaults (empty payloads, unidirectional, blocking input).
    pub fn build(self) -> (r: OnelinerModeParams)
        ensures
            r.f_params@ == match self.f_params_spec() {
                Some(v) => v@,
                None => Seq::<char>::empty(),
            },
            r.to_params@ == match self.to_params_spec() {
                Some(v) => v@,
                None => Seq::<char>::empty(),
            },
            r.bidir == match self.bidir_spec() {
                Some(v) => v,
                None => false,
            },
            r.blocking == match self.blocking_spec() {
                Some(v) => v,
                None => true,
            },
    {
        let f_params = match self.f_params {
            Some(v) => v,
            None => String::new(),
        };
        let to_params = match self.to_params {
            Some(v) => v,
            None => String::new(),
        };
        let bidir = match self.bidir {
            Some(v) => v,
            None => false,
        };
        let blocking = match self.blocking {
            Some(v) => v,
            None => true,
        };
        OnelinerModeParams { f_params, to_params, bidir, blocking }
    }
}

} // verus!
