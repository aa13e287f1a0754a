//! Keys of the plain chat front end.
use vstd::prelude::*;

use crate::chat::{key_taken, App};
use crate::events::UserAction;
use crate::keys::KeyCode;

verus! {

/// Hands a key to the front end. The result is what the agent is to do.
pub fn dispatch(app: &mut App, key: KeyCode) -> (r: Option<UserAction>)
    ensures
        key_taken(*old(app), key, *final(app), r),
{
    app.handle_key(key)
}

} // verus!
