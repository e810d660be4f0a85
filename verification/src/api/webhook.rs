//! Trying out a webhook.

use vstd::prelude::*;

verus! {

#[derive(Debug)]
pub struct WebhookTestResponse {
    pub success: bool,
    pub message: String,
}

#[derive(Debug)]
pub struct TestWebhookRequest {
    pub webhook_url: Option<String>,
}

} // verus!
