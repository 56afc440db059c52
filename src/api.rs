//! The families of API operations a client offers.

use vstd::prelude::*;

verus! {

/// A client that offers the protected information operations: fetch, create
/// and disable.
pub trait ProtectedInformationApi {

}

/// A client that offers the PAM Core APIs.
pub trait PAMCoreAPI: ProtectedInformationApi {

}

impl<T: ProtectedInformationApi> PAMCoreAPI for T {

}

/// A client that offers the Senhasegura APIs.
pub trait SenhaseguraApi: PAMCoreAPI {

}

impl<T: PAMCoreAPI> SenhaseguraApi for T {

}

} // verus!
