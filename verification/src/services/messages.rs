use vstd::prelude::*;

use crate::domain::user::User;
use crate::errors::AppError;

verus! {

/// An incoming Telegram message, as the library reads it. `date` and
/// `edit_date` are Unix times in seconds; `is_common` tells an ordinary message
/// from a service one.
#[derive(Debug, Clone, PartialEq, Eq)]
pub struct IncomingMessage {
    pub id: i32,
    pub chat_id: Option<i64>,
    pub chat_title: Option<String>,
    pub date: i64,
    pub from: Option<User>,
    pub is_common: bool,
    pub text: Option<String>,
    pub edit_date: Option<i64>,
}

/// The row of a user to insert or update.
#[derive(Debug, Clone, PartialEq, Eq)]
pub struct UserRecord {
    pub id: i64,
    pub first_name: String,
    pub last_name: Option<String>,
    pub is_bot: bool,
    pub username: Option<String>,
    pub is_premium: bool,
}

/// The row of a message to insert or update.
#[derive(Debug, Clone, PartialEq, Eq)]
pub struct MessageRecord {
    pub chat_id: i64,
    pub message_id: i64,
    pub user_id: i64,
    pub text: String,
    pub created_at: i64,
    pub edited_at: Option<i64>,
}

/// What saving a message writes, in this order: the chat with its title, the
/// author, the author's membership (seen through a message, no nickname), the
/// message.
#[derive(Debug, Clone, PartialEq, Eq)]
pub enum SavePlan {
    /// A service message: nothing is written.
    Skip,
    Store {
        chat_id: i64,
        chat_title: String,
        user: UserRecord,
        member_chat_id: i64,
        member_user_id: i64,
        message: MessageRecord,
    },
}

/// `p` writes `msg` (with a chat and an author): the chat and its title (empty
/// without one), the author, the membership and the message with its text
/// (empty without one).
pub open spec fn stores_message(msg: IncomingMessage, p: SavePlan) -> bool {
    match p {
        SavePlan::Store { chat_id, chat_title, user, member_chat_id, member_user_id, message } => {
            let u = msg.from->0;
            &&& chat_id == msg.chat_id->0
            &&& chat_title@ == match msg.chat_title {
                Some(t) => t@,
                None => Seq::<char>::empty(),
            }
            &&& user.id == u.id as i64
            &&& user.first_name == u.first_name
            &&& user.last_name == u.last_name
            &&& user.is_bot == u.is_bot
            &&& user.username == u.username
            &&& user.is_premium == u.is_premium
            &&& member_chat_id == chat_id
            &&& member_user_id == u.id as i64
            &&& message.chat_id == chat_id
            &&& message.message_id == msg.id as i64
            &&& message.user_id == u.id as i64
            &&& message.text@ == match msg.text {
                Some(t) => t@,
                None => Seq::<char>::empty(),
            }
            &&& message.created_at == msg.date
            &&& message.edited_at == msg.edit_date
        },
        SavePlan::Skip => false,
    }
}

/// What saving `msg` writes: an `EmptyChatId` error without a chat, an
/// `EmptyUserId` error without an author, nothing for a service message, else
/// the chat (title or empty), the author, the membership and the message (text
/// or empty). Ids are converted with `as`.
pub fn save(msg: IncomingMessage) -> (r: Result<SavePlan, AppError>)
    ensures
        msg.chat_id is None ==> r == Err::<SavePlan, AppError>(AppError::EmptyChatId(msg.id as i64)),
        msg.chat_id is Some && msg.from is None ==> r == Err::<SavePlan, AppError>(
            AppError::EmptyUserId(msg.id as i64, msg.chat_id->0),
        ),
        msg.chat_id is Some && msg.from is Some && !msg.is_common ==> r matches Ok(SavePlan::Skip),
        msg.chat_id is Some && msg.from is Some && msg.is_common ==> (r matches Ok(p)
            && stores_message(msg, p)),
{
    let message_id: i64 = msg.id as i64;
    let chat_id = match msg.chat_id {
        Some(id) => id,
        None => return Err(AppError::EmptyChatId(message_id)),
    };
    let user = match msg.from {
        Some(u) => u,
        None => return Err(AppError::EmptyUserId(message_id, chat_id)),
    };
    if !msg.is_common {
        return Ok(SavePlan::Skip);
    }
    let chat_title = match msg.chat_title {
        Some(t) => t,
        None => String::new(),
    };
    let text = match msg.text {
        Some(t) => t,
        None => String::new(),
    };
    let user_id: i64 = user.id as i64;
    Ok(
        SavePlan::Store {
            chat_id,
            chat_title,
            user: UserRecord {
                id: user_id,
                first_name: user.first_name,
                last_name: user.last_name,
                is_bot: user.is_bot,
                username: user.username,
                is_premium: user.is_premium,
            },
            member_chat_id: chat_id,
            member_user_id: user_id,
            message: MessageRecord {
                chat_id,
                message_id,
                user_id,
                text,
                created_at: msg.date,
                edited_at: msg.edit_date,
            },
        },
    )
}

} // verus!
