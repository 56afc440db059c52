//! Client library for the Senhasegura privileged access management REST API.
//!
//! The library holds the decisions of the authenticated request pipeline:
//! when a cached OAuth2 token may be reused, how a finished or failed HTTP
//! exchange becomes an [`Error`], when and after how long a failed attempt is
//! tried again, and which request each protected-information operation sends.
//! The HTTP and OAuth2 exchanges themselves are performed by the caller.

pub mod api;
pub mod common;
pub mod config;
pub mod decimal;
pub mod dispatch;
pub mod error;
pub mod protected_information;
pub mod retry;
pub mod status;
pub mod token;

pub use api::{PAMCoreAPI, ProtectedInformationApi, SenhaseguraApi};
pub use common::{
    ApiError, Exception, ExceptionCode, PAMCoreExceptionCode, ProtectedInformationExceptionCode,
    Response,
};
pub use config::{ClientConfig, SenhaseguraClientBuilder};
pub use dispatch::{settle_failure, settle_success, ApiRequest, Call, Enveloped, Method, Step};
pub use error::{Error, ErrorCode};
pub use protected_information::{
    access_request, create_request, disable_request, AccessProtectedInformationApiResponse,
    AccessProtectedInformationResult, CreateProtectedInformationApiRequest,
    CreateProtectedInformationApiResponse, CreateProtectedInformationResult,
    DisableProtectedInformationApiResponse, ProtectedInformationIdentifier,
};
pub use retry::{Next, RetryPolicy, RetryState};
pub use status::StatusCode;
pub use token::{AccessToken, TokenCache, TokenLifetime};
