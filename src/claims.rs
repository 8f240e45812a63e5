//! The identity claims that an upstream token carries for a caller.

use vstd::prelude::*;

verus! {

/// What a verified token says of its bearer.
#[derive(Clone, Debug, Default)]
pub struct Claims {
    pub tg_id: u64,
    /// Unix time at which the sign-in form was opened.
    pub auth_date: Option<u64>,
    pub exp: usize,
    pub iat: usize,
    pub is_admin: bool,
}

} // verus!
