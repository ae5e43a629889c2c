//! Records exchanged with the persistence and AI collaborators.

use vstd::prelude::*;

verus! {

/// A signed-in account as persisted locally.
#[derive(Debug, Clone, PartialEq, Eq)]
pub struct User {
    pub id: i64,
    pub nickname: String,
    pub phone: String,
    pub avatar: Option<String>,
    pub created_at: String,
}

/// What an AI model is used for.
#[derive(Debug, Clone, Copy, PartialEq, Eq, Structural)]
pub enum AIModelType {
    Text,
    Image,
}

/// A model offered by an AI provider.
#[derive(Debug, Clone, PartialEq, Eq)]
pub struct AIModel {
    pub id: Option<i64>,
    pub provider_id: Option<i64>,
    pub name: String,
    pub model_type: AIModelType,
    pub supports_structured_output: Option<bool>,
    /// One of "success", "failed", "testing".
    pub test_status: Option<String>,
}

/// An AI provider with its credentials and models.
#[derive(Debug, Clone, PartialEq, Eq)]
pub struct AIProvider {
    pub id: Option<i64>,
    pub name: String,
    pub api_key: String,
    pub base_url: Option<String>,
    pub models: Vec<AIModel>,
}

/// The outcome of a trial request against one model.
#[derive(Debug, Clone, PartialEq, Eq)]
pub struct ModelTestResult {
    pub model_name: String,
    pub success: bool,
    pub error_message: Option<String>,
    pub response: Option<String>,
}

/// The identity record that the creator site keeps in the browser's local
/// storage once an account is signed in.
#[derive(Debug, Clone, PartialEq, Eq)]
pub struct XhsUserInfo {
    pub user_id: String,
    pub user_name: String,
    pub user_avatar: String,
    pub red_id: String,
    pub phone: String,
    pub role: String,
}

/// The identity derived from a signed-in session.
#[derive(Debug, Clone, PartialEq, Eq)]
pub struct Identity {
    pub account_id: String,
    /// The site's own user id, when the site's identity record was read.
    pub external_user_id: Option<String>,
    pub nickname: String,
    pub avatar: Option<String>,
}

} // verus!
