//! Moderation escalation engine for a chat community.
//!
//! Moderators warn members; the warnings of each member add up in a ledger,
//! and fixed counts bring automatic punishments: a suspension of ten minutes
//! at the third warning, removal from the fifth on.
//!
//! - [`ledger`] keeps the warning records and answers for each member how
//!   many there are, which, and which came last over all members.
//! - [`policy`] maps a warning count to the punishment it calls for.
//! - [`moderation`] carries out the moderator's commands on a ledger; a warn
//!   command is a flow of steps whose outside work (punishing, replying,
//!   emitting the audit record) the caller performs.
//! - [`storage`] turns the records into the rows of a table and back.
//! - [`messages`], [`text`] and [`timestamp`] write what moderators read.
//! - [`interaction`], [`command`] and [`handler`] describe incoming commands
//!   and the commands on offer; [`admin`], [`fun`] and [`games`] hold the
//!   small commands beside moderation, [`random`] their dice.
//! - [`laws`] states what holds of all of this whatever the input.

pub mod admin;
pub mod command;
pub mod error;
pub mod fun;
pub mod games;
pub mod handler;
pub mod interaction;
pub mod laws;
pub mod ledger;
pub mod messages;
pub mod moderation;
pub mod policy;
pub mod random;
pub mod storage;
pub mod text;
pub mod timestamp;
