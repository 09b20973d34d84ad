use vstd::prelude::*;

verus! {

/// The account and client credentials, and the anti-forgery `state` value
/// sent with the consent request. Loaded by the caller; read-only here.
#[derive(Clone, Debug)]
pub struct ConnectConfig {
    pub client_id: String,
    pub client_secret: String,
    pub username: String,
    pub password: String,
    pub arbitrary_but_unique_string: String,
}

impl Default for ConnectConfig {
    /// Placeholder values written out when no configuration exists yet.
    fn default() -> (r: Self)
        ensures
            r.client_id@ == "cliend_id"@,
            r.client_secret@ == "client_secret"@,
            r.username@ == "username"@,
            r.password@ == "password"@,
            r.arbitrary_but_unique_string@ == "arbitrary_not_so_unique_string"@,
    {
        ConnectConfig {
            client_id: "cliend_id".to_owned(),
            client_secret: "client_secret".to_owned(),
            username: "username".to_owned(),
            password: "password".to_owned(),
            arbitrary_but_unique_string: "arbitrary_not_so_unique_string".to_owned(),
        }
    }
}

} // verus!
