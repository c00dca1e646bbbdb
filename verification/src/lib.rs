//! The application layer of an identity provider.
//!
//! A use case that calls a store or another service is a function from what is known so far to what
//! comes next: a call to make, or the outcome. The caller makes the call, adds the answer to what is
//! known, and asks again. What a use case decides is thus a function of plain values, and every
//! contract states it as one.
pub mod audit;
pub mod code_flow;
pub mod crypto;
pub mod key_service;
pub mod login;
pub mod login_identifier_management;
pub mod login_user_resolution;
pub mod logout;
pub mod mail;
pub mod management_token;
pub mod member_directory;
pub mod member_note;
pub mod mfa_login;
pub mod model;
pub mod passkey_assertion;
pub mod passkey_authentication;
pub mod passkey_registration;
pub mod password_policy;
pub mod password_reset;
pub mod password_strength;
pub mod permission_management;
pub mod portal_login;
pub mod register;
pub mod resource_management;
pub mod revocation;
pub mod saml_provider_management;
pub mod saml_service_provider_management;
pub mod saml_sso;
pub mod service_restart;
pub mod sso_restore;
pub mod step_up;
pub mod stop_announcement;
pub mod system_settings;
pub mod tenant_management;
pub mod tenant_resolution;
pub mod text;
pub mod time;
pub mod webauthn;
