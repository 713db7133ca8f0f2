use vstd::prelude::*;
use vstd::string::*;

use crate::config::Configuration;
use crate::error::ServiceError;

verus! {

/// A keystore that lies on another machine.
#[derive(Debug, PartialEq, Eq)]
pub struct RemoteKeystore {
    pub url: String,
}

/// Connects to the keystore at a URL. There is no remote keystore to connect to yet, so this fails
/// for every URL.
pub fn remote_keystore(_url: &String) -> (r: Result<RemoteKeystore, &'static str>)
    ensures
        r == Err::<RemoteKeystore, &'static str>("Remote Keystore not supported."),
{
    Err("Remote Keystore not supported.")
}

/// What an operator is told whose remote keystore could not be hooked up.
pub open spec fn hook_up_message(url: Seq<char>, reason: Seq<char>) -> Seq<char> {
    "Error hooking up remote keystore for "@ + url + ": "@ + reason
}

/// The message names the URL and then the reason, both in full, and nothing else varies in it.
pub proof fn law_message_names_url_and_reason(url: Seq<char>, reason: Seq<char>)
    ensures
        ({
            let message = hook_up_message(url, reason);
            let opening = "Error hooking up remote keystore for "@;
            let url_end = opening.len() + url.len();
            let reason_start = url_end + ": "@.len();
            &&& message.len() == reason_start + reason.len()
            &&& message.take(opening.len() as int) == opening
            &&& message.subrange(opening.len() as int, url_end as int) == url
            &&& message.subrange(url_end as int, reason_start as int) == ": "@
            &&& message.skip(reason_start as int) == reason
        }),
{
}

/// Hooks up the configured remote keystore. This succeeds exactly when none is configured.
pub fn hook_up_remote_keystore<E>(config: &Configuration) -> (r: Result<(), ServiceError<E>>)
    ensures
        config.keystore_remote is None ==> r == Ok::<(), ServiceError<E>>(()),
        config.keystore_remote is Some ==> {
            &&& r matches Err(ServiceError::Other(message))
            &&& message@ == hook_up_message(
                config.keystore_remote->0@,
                "Remote Keystore not supported."@,
            )
        },
{
    match &config.keystore_remote {
        None => Ok(()),
        Some(url) => match remote_keystore(url) {
            Ok(_keystore) => Ok(()),
            Err(reason) => {
                let mut message = "Error hooking up remote keystore for ".to_owned();
                message.append(url.as_str());
                message.append(": ");
                message.append(reason);
                Err(ServiceError::Other(message))
            },
        },
    }
}

} // verus!
