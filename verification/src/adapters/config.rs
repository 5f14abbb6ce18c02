//! What the process is started with.

use vstd::prelude::*;

verus! {

/// The settings of one process. They are read once and never change.
pub struct Config {
    /// The secret that signs session credentials: a base64 HMAC key, as text.
    pub secret: Vec<u8>,
    pub db_url: String,
    pub db_name: String,
    pub google_client_id: String,
    pub google_client_secret: String,
    pub google_auth_url: String,
    pub google_token_url: String,
    pub google_redirect_url: String,
}

impl Clone for Config {
    fn clone(&self) -> (copy: Self)
        ensures
            copy.secret@ == self.secret@,
            copy.db_url@ == self.db_url@,
            copy.db_name@ == self.db_name@,
            copy.google_client_id@ == self.google_client_id@,
            copy.google_client_secret@ == self.google_client_secret@,
            copy.google_auth_url@ == self.google_auth_url@,
            copy.google_token_url@ == self.google_token_url@,
            copy.google_redirect_url@ == self.google_redirect_url@,
    {
        Config {
            secret: self.secret.clone(),
            db_url: self.db_url.clone(),
            db_name: self.db_name.clone(),
            google_client_id: self.google_client_id.clone(),
            google_client_secret: self.google_client_secret.clone(),
            google_auth_url: self.google_auth_url.clone(),
            google_token_url: self.google_token_url.clone(),
            google_redirect_url: self.google_redirect_url.clone(),
        }
    }
}

} // verus!
