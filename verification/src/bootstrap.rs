//! What the application is assembled from.

use crate::email::email_client::{EmailClient, EmailClientProvider};
use std::sync::Arc;
use vstd::prelude::*;

verus! {

/// The outside services that the application depends on.
#[verifier::reject_recursive_types(T)]
pub struct Dependencies<T: EmailClient> {
    pub email_client_provider: Arc<dyn EmailClientProvider<T>>,
}

} // verus!
