//! The login endpoint's pure part: the user record handed to the frontend,
//! with the role list that the user name determines. Password checking,
//! token signing and the HTTP plumbing stay with the surrounding process.

use vstd::prelude::*;

use crate::text::{chars_to_string, dec_of, lower_char, push_decimal, str_to_chars, to_lower};

verus! {

/// A request to store the caller's theme settings.
#[derive(Debug)]
pub struct ThemeConfigRequest {
    pub theme_config: String,
}

/// The user record the frontend receives after login.
#[derive(Debug)]
pub struct FrontendUserInfo {
    pub user_id: String,
    pub user_name: String,
    pub roles: Vec<String>,
    pub buttons: Vec<String>,
}

/// The decimal rendering of a signed number.
pub open spec fn dec_of_i32(n: i32) -> Seq<char> {
    if n < 0 {
        seq!['-'] + dec_of((-(n as int)) as nat)
    } else {
        dec_of(n as nat)
    }
}

/// `s` folded to ASCII lower case.
pub open spec fn lower_of(s: Seq<char>) -> Seq<char> {
    Seq::new(s.len(), |i: int| lower_char(s[i]))
}

/// The name belongs to an operator account.
pub open spec fn is_super_name(username: Seq<char>) -> bool {
    lower_of(username) == "admin"@ || lower_of(username) == "super"@
}

/// Renders a signed number in decimal.
pub fn i32_to_string(n: i32) -> (r: String)
    ensures
        r@ == dec_of_i32(n),
{
    let mut out: Vec<char> = Vec::new();
    if n < 0 {
        out.push('-');
        let m: u64 = (-(n as i64)) as u64;
        push_decimal(&mut out, m);
        proof {
            assert(out@ =~= dec_of_i32(n));
        }
    } else {
        push_decimal(&mut out, n as u64);
    }
    chars_to_string(&out)
}

/// Folds a string to ASCII lower case.
fn lower_string(s: &str) -> (r: Vec<char>)
    ensures
        r@ == lower_of(s@),
{
    let v = str_to_chars(s);
    let mut out: Vec<char> = Vec::new();
    let mut i: usize = 0;
    while i < v.len()
        invariant
            i <= v@.len(),
            v@ == s@,
            out@ == lower_of(s@).subrange(0, i as int),
        decreases v@.len() - i,
    {
        out.push(to_lower(v[i]));
        proof {
            assert(out@ =~= lower_of(s@).subrange(0, i as int + 1));
        }
        i = i + 1;
    }
    proof {
        assert(out@ =~= lower_of(s@));
    }
    out
}

/// Builds the frontend user record: every user carries the base role, and
/// the operator accounts carry the elevated role as well.
pub fn build_user_info(id: i32, username: &str) -> (r: FrontendUserInfo)
    ensures
        r.user_id@ == dec_of_i32(id),
        r.user_name@ == username@,
        r.buttons@.len() == 0,
        r.roles@.len() == if is_super_name(username@) {
            2int
        } else {
            1int
        },
        r.roles@[0]@ == "R_USER"@,
        is_super_name(username@) ==> r.roles@[1]@ == "R_SUPER"@,
{
    let mut roles: Vec<String> = Vec::new();
    roles.push(String::from_str("R_USER"));
    let low = lower_string(username);
    if crate::protocol::chars_eq_lit(&low, "admin") || crate::protocol::chars_eq_lit(
        &low,
        "super",
    ) {
        roles.push(String::from_str("R_SUPER"));
    }
    FrontendUserInfo {
        user_id: i32_to_string(id),
        user_name: String::from_str(username),
        roles,
        buttons: Vec::new(),
    }
}

} // verus!
