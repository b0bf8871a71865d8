//! Request bodies and the constraints on their fields.

use crate::errors::ApiError;
use validator::ValidateEmail;
use vstd::prelude::*;
use vstd::string::*;

verus! {

/// What `ValidateEmail::validate_email` answers for a text: whether it has
/// the form of an email address.
pub uninterp spec fn email_format_ok(text: Seq<char>) -> bool;

/// `ValidateEmail::validate_email` on a string slice.
#[verifier::external_body]
fn is_email(text: &str) -> (r: bool)
    ensures
        r == email_format_ok(text@),
{
    text.validate_email()
}

/// Whether the number of characters of a text lies between two bounds,
/// both included.
fn length_between(text: &str, min: usize, max: usize) -> (r: bool)
    ensures
        r == (min <= text@.len() <= max),
{
    let n = text.unicode_len();
    min <= n && n <= max
}

/// A report with one more line: lines are separated by a line feed.
pub open spec fn with_line(report: Seq<char>, line: Seq<char>) -> Seq<char> {
    if report.len() == 0 {
        line
    } else {
        report + seq!['\n'] + line
    }
}

fn add_line(report: &mut String, line: &str)
    ensures
        final(report)@ == with_line(old(report)@, line@),
{
    if report.as_str().unicode_len() == 0 {
        report.append(line);
        assert(report@ =~= line@);
    } else {
        proof {
            reveal_strlit("\n");
        }
        report.append("\n");
        report.append(line);
        assert("\n"@ =~= seq!['\n']);
    }
}

/// The body of a signup request.
#[derive(Debug)]
pub struct SignupRequest {
    pub email: String,
    pub username: String,
    pub password: String,
}

/// Whether the fields of a signup request meet their constraints: the
/// email has the form of an address, the username has 3 to 20 characters,
/// the password 8 to 100.
pub open spec fn signup_valid(email: Seq<char>, username: Seq<char>, password: Seq<char>) -> bool {
    &&& email_format_ok(email)
    &&& 3 <= username.len() <= 20
    &&& 8 <= password.len() <= 100
}

/// The report on a signup request: one line for each field that breaks
/// its constraint, in the order of the fields.
pub open spec fn signup_report(email: Seq<char>, username: Seq<char>, password: Seq<char>) -> Seq<
    char,
> {
    let r0 = Seq::<char>::empty();
    let r1 = if email_format_ok(email) {
        r0
    } else {
        with_line(r0, "email: Invalid email format"@)
    };
    let r2 = if 3 <= username.len() <= 20 {
        r1
    } else {
        with_line(r1, "username: Username must be 3-20 characters"@)
    };
    if 8 <= password.len() <= 100 {
        r2
    } else {
        with_line(r2, "password: Password must be 8-100 characters"@)
    }
}

impl SignupRequest {
    /// Checks the fields against their constraints. A request that breaks
    /// one is refused with a validation error that carries the report.
    pub fn validate(&self) -> (r: Result<(), ApiError>)
        ensures
            match r {
                Ok(_) => signup_valid(self.email@, self.username@, self.password@),
                Err(ApiError::ValidationError(msg)) => !signup_valid(
                    self.email@,
                    self.username@,
                    self.password@,
                ) && msg@ == signup_report(self.email@, self.username@, self.password@),
                Err(_) => false,
            },
    {
        let mut report = String::new();
        let mut ok = true;
        if !is_email(self.email.as_str()) {
            add_line(&mut report, "email: Invalid email format");
            ok = false;
        }
        if !length_between(self.username.as_str(), 3, 20) {
            add_line(&mut report, "username: Username must be 3-20 characters");
            ok = false;
        }
        if !length_between(self.password.as_str(), 8, 100) {
            add_line(&mut report, "password: Password must be 8-100 characters");
            ok = false;
        }
        if ok {
            Ok(())
        } else {
            Err(ApiError::ValidationError(report))
        }
    }
}

/// The body of a login request.
#[derive(Debug)]
pub struct LoginRequest {
    pub email: String,
    pub password: String,
}

impl LoginRequest {
    /// Checks that the email has the form of an address.
    pub fn validate(&self) -> (r: Result<(), ApiError>)
        ensures
            match r {
                Ok(_) => email_format_ok(self.email@),
                Err(ApiError::ValidationError(msg)) => !email_format_ok(self.email@) && msg@
                    == "email: Validation error: email"@,
                Err(_) => false,
            },
    {
        if is_email(self.email.as_str()) {
            Ok(())
        } else {
            Err(ApiError::ValidationError(String::from_str("email: Validation error: email")))
        }
    }
}

/// The body of a request that creates a post.
#[derive(Debug)]
pub struct CreatePostRequest {
    pub title: String,
    pub content: String,
}

/// Whether the fields of a new post meet their constraints: the title has
/// 1 to 200 characters, the content 1 to 5000.
pub open spec fn post_valid(title: Seq<char>, content: Seq<char>) -> bool {
    &&& 1 <= title.len() <= 200
    &&& 1 <= content.len() <= 5000
}

/// The report on a new post: one line for each field that breaks its
/// constraint, in the order of the fields.
pub open spec fn post_report(title: Seq<char>, content: Seq<char>) -> Seq<char> {
    let r0 = Seq::<char>::empty();
    let r1 = if 1 <= title.len() <= 200 {
        r0
    } else {
        with_line(r0, "title: Validation error: length"@)
    };
    if 1 <= content.len() <= 5000 {
        r1
    } else {
        with_line(r1, "content: Validation error: length"@)
    }
}

impl CreatePostRequest {
    /// Checks the fields against their constraints. A request that breaks
    /// one is refused with a validation error that carries the report.
    pub fn validate(&self) -> (r: Result<(), ApiError>)
        ensures
            match r {
                Ok(_) => post_valid(self.title@, self.content@),
                Err(ApiError::ValidationError(msg)) => !post_valid(self.title@, self.content@)
                    && msg@ == post_report(self.title@, self.content@),
                Err(_) => false,
            },
    {
        let mut report = String::new();
        let mut ok = true;
        if !length_between(self.title.as_str(), 1, 200) {
            add_line(&mut report, "title: Validation error: length");
            ok = false;
        }
        if !length_between(self.content.as_str(), 1, 5000) {
            add_line(&mut report, "content: Validation error: length");
            ok = false;
        }
        if ok {
            Ok(())
        } else {
            Err(ApiError::ValidationError(report))
        }
    }
}

} // verus!
