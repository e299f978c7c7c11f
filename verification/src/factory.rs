//! Wiring of the chat builder.

use vstd::prelude::*;
use crate::chat::builder::{with_users, ChatBuilder, UserProvider};
use crate::schemas::{User, UserView};

verus! {

/// A builder over a fresh directory of the given users, enriching for the
/// given current user.
pub fn get_chat_builder(users: Vec<User>, current_user: Option<User>) -> (r: ChatBuilder)
    ensures
        r.user_provider@ == with_users(
            Map::<Seq<char>, UserView>::empty(),
            users@.map_values(|u: User| u@),
        ),
        match (r.current_user, current_user) {
            (Some(a), Some(b)) => a@ == b@,
            (None, None) => true,
            _ => false,
        },
{
    let user_provider = UserProvider::new(users);
    ChatBuilder::new(current_user, user_provider)
}

} // verus!
