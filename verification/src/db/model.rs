//! The rows of the message database.

use vstd::prelude::*;

verus! {

/// A row of the table of group messages.
///
/// The columns of the table are named by numbers, and a row is read with all its columns,
/// as it is stored. Columns that hold a coded value are kept as the number stored, and
/// columns that hold an encoded message as the bytes stored. Columns whose meaning is not
/// known go by the number of the column.
#[derive(Debug, Clone)]
pub struct GroupMsgTable {
    pub id: i64,
    pub msg_random: i64,
    pub seq_id: i64,
    /// Kind of chat, as coded in the database.
    pub chat_type: i64,
    /// Kind of message, as coded in the database.
    pub msg_type: i64,
    /// Kind of message within its kind, as coded in the database.
    pub sub_msg_type: i64,
    /// 1 for a message sent from this machine, 2 for one sent from another client of the
    /// same account, 0 for one of somebody else, 5 for a forwarded one; in a group that
    /// was left or banned, the time stamp of the full hour of the day.
    pub send_type: i64,
    pub sender_uid: String,
    pub _40026: i64,
    pub peer_uid: String,
    pub peer_uin: i64,
    pub _40040: i64,
    /// Whether the message was sent, as coded in the database.
    pub send_status: i64,
    pub send_time: i64,
    pub _40052: i64,
    /// The name that the sender goes by in the group.
    pub sender_group_name: String,
    pub sender_nickname: String,
    /// The message, encoded.
    pub message: Option<Vec<u8>>,
    pub _40900: Option<Vec<u8>>,
    pub _40105: i64,
    pub _40005: i64,
    pub send_date: i64,
    pub _40006: i64,
    /// Whether and how the account is mentioned, as coded in the database.
    pub at_flag: i64,
    pub _40600: Option<Vec<u8>>,
    pub _40060: i64,
    pub reply_msg_seq: i64,
    pub _40851: i64,
    pub _40601: Option<Vec<u8>>,
    pub _40801: Option<Vec<u8>>,
    pub _40605: Option<Vec<u8>>,
    pub group_number: i64,
    pub sender_uin: i64,
    pub _40062: Option<Vec<u8>>,
    pub _40083: i64,
    pub _40084: i64,
}

/// The columns that the fields of a [`GroupMsgTable`] are read from, in the order of the
/// fields.
pub const GROUP_MSG_COLUMNS: [u32; 36] = [
    40001, 40002, 40003, 40010, 40011, 40012, 40013, 40020, 40026, 40021, 40027, 40040, 40041,
    40050, 40052, 40090, 40093, 40800, 40900, 40105, 40005, 40058, 40006, 40100, 40600, 40060,
    40850, 40851, 40601, 40801, 40605, 40030, 40033, 40062, 40083, 40084,
];

} // verus!
