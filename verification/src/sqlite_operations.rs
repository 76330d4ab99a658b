//! The demonstration user record of the embedded-database walkthrough. The
//! database calls themselves stay with the surrounding process.

use vstd::prelude::*;

verus! {

/// One user row.
#[derive(Clone, Debug)]
pub struct User {
    pub id: i32,
    pub name: String,
    pub email: String,
    pub age: i32,
}

} // verus!
