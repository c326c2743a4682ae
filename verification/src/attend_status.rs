//! Guest attendance answers, the RSVP request that produces them and their
//! encoding in the `attend_status` database enum.
use vstd::prelude::*;

verus! {

/// What a guest answered to the invitation.
#[derive(Debug, Clone, Copy, PartialEq, Eq, Structural)]
pub enum AttendStatus {
    No,
    Yes,
    YesPlusOne,
}

/// Why bytes read from the database are not an enum value.
#[derive(Debug, Clone, Copy, PartialEq, Eq, Structural)]
pub enum SqlDecodeError {
    /// The column was NULL.
    UnexpectedNull,
    /// The bytes name no variant.
    UnrecognizedVariant,
}

impl SqlDecodeError {
    /// The message the database layer reports for this error.
    pub fn message(&self) -> (r: &'static str)
        ensures
            *self == SqlDecodeError::UnexpectedNull ==> r@ == "Unexpected null for non-null column"@,
            *self == SqlDecodeError::UnrecognizedVariant ==> r@ == "Unrecognized enum variant"@,
    {
        match self {
            SqlDecodeError::UnexpectedNull => "Unexpected null for non-null column",
            SqlDecodeError::UnrecognizedVariant => "Unrecognized enum variant",
        }
    }
}

/// The pair `(will_attend, plus_one)` that a status stands for.
pub open spec fn attendance_of(s: AttendStatus) -> (bool, bool) {
    match s {
        AttendStatus::No => (false, false),
        AttendStatus::Yes => (true, false),
        AttendStatus::YesPlusOne => (true, true),
    }
}

/// The status a guest picks by answering "will you attend" and "do you bring
/// someone"; the second answer counts only when the first is yes.
pub open spec fn status_from_answers(will_attend: bool, plus_one: bool) -> AttendStatus {
    if !will_attend {
        AttendStatus::No
    } else if !plus_one {
        AttendStatus::Yes
    } else {
        AttendStatus::YesPlusOne
    }
}

/// The bytes stored in the database for a status: `no`, `yes`, `yes+one`.
pub open spec fn attend_sql_bytes(s: AttendStatus) -> Seq<u8> {
    match s {
        AttendStatus::No => seq![110u8, 111u8],
        AttendStatus::Yes => seq![121u8, 101u8, 115u8],
        AttendStatus::YesPlusOne => seq![121u8, 101u8, 115u8, 43u8, 111u8, 110u8, 101u8],
    }
}

/// The status stored as `b`, if any.
pub open spec fn attend_from_sql_bytes(b: Seq<u8>) -> Option<AttendStatus> {
    if b == attend_sql_bytes(AttendStatus::No) {
        Some(AttendStatus::No)
    } else if b == attend_sql_bytes(AttendStatus::Yes) {
        Some(AttendStatus::Yes)
    } else if b == attend_sql_bytes(AttendStatus::YesPlusOne) {
        Some(AttendStatus::YesPlusOne)
    } else {
        None
    }
}

/// Decoding a column value as the database layer does: NULL is an error,
/// known bytes give their status, anything else is an error.
pub open spec fn attend_from_sql(bytes: Option<Seq<u8>>) -> Result<AttendStatus, SqlDecodeError> {
    match bytes {
        None => Err(SqlDecodeError::UnexpectedNull),
        Some(b) => match attend_from_sql_bytes(b) {
            Some(s) => Ok(s),
            None => Err(SqlDecodeError::UnrecognizedVariant),
        },
    }
}

/// The body of an RSVP: the two answers and the invitation token.
pub struct RsvpRequest {
    will_attend: bool,
    plus_one: bool,
    token: String,
}

impl RsvpRequest {
    /// A request with the given answers and invitation token.
    pub fn new(will_attend: bool, plus_one: bool, token: String) -> (r: RsvpRequest)
        ensures
            r.will_attend() == will_attend,
            r.plus_one() == plus_one,
            r.token_view() == token@,
    {
        RsvpRequest { will_attend, plus_one, token }
    }

    pub closed spec fn will_attend(&self) -> bool {
        self.will_attend
    }

    pub closed spec fn plus_one(&self) -> bool {
        self.plus_one
    }

    pub closed spec fn token_view(&self) -> Seq<char> {
        self.token@
    }

    /// The invitation token of the request.
    pub fn token(&self) -> (r: String)
        ensures
            r@ == self.token_view(),
    {
        self.token.clone()
    }
}

/// The status an RSVP request stands for.
pub fn get_attend_status(req: &RsvpRequest) -> (r: AttendStatus)
    ensures
        r == status_from_answers(req.will_attend(), req.plus_one()),
{
    match (req.will_attend, req.plus_one) {
        (false, _) => AttendStatus::No,
        (true, false) => AttendStatus::Yes,
        (true, true) => AttendStatus::YesPlusOne,
    }
}

impl AttendStatus {
    /// Splits the status into `(will_attend, plus_one)`.
    pub fn parse(&self) -> (r: (bool, bool))
        ensures
            r == attendance_of(*self),
    {
        match self {
            AttendStatus::No => (false, false),
            AttendStatus::Yes => (true, false),
            AttendStatus::YesPlusOne => (true, true),
        }
    }

    /// The bytes written to the database for this status.
    pub fn to_sql(&self) -> (r: Vec<u8>)
        ensures
            r@ == attend_sql_bytes(*self),
    {
        let mut v: Vec<u8> = Vec::new();
        match self {
            AttendStatus::No => {
                v.push(110u8);
                v.push(111u8);
            },
            AttendStatus::Yes => {
                v.push(121u8);
                v.push(101u8);
                v.push(115u8);
            },
            AttendStatus::YesPlusOne => {
                v.push(121u8);
                v.push(101u8);
                v.push(115u8);
                v.push(43u8);
                v.push(111u8);
                v.push(110u8);
                v.push(101u8);
            },
        }
        assert(v@ =~= attend_sql_bytes(*self));
        v
    }

    /// Reads a status from a database column value.
    pub fn from_sql(bytes: Option<&[u8]>) -> (r: Result<AttendStatus, SqlDecodeError>)
        ensures
            r == attend_from_sql(
                match bytes {
                    Some(b) => Some(b@),
                    None => None,
                },
            ),
    {
        match bytes {
            None => Err(SqlDecodeError::UnexpectedNull),
            Some(b) => {
                let n: usize = b.len();
                if n == 2 && b[0] == 110u8 && b[1] == 111u8 {
                    assert(b@ =~= attend_sql_bytes(AttendStatus::No));
                    Ok(AttendStatus::No)
                } else if n == 3 && b[0] == 121u8 && b[1] == 101u8 && b[2] == 115u8 {
                    assert(b@ =~= attend_sql_bytes(AttendStatus::Yes));
                    Ok(AttendStatus::Yes)
                } else if n == 7 && b[0] == 121u8 && b[1] == 101u8 && b[2] == 115u8 && b[3]
                    == 43u8 && b[4] == 111u8 && b[5] == 110u8 && b[6] == 101u8 {
                    assert(b@ =~= attend_sql_bytes(AttendStatus::YesPlusOne));
                    Ok(AttendStatus::YesPlusOne)
                } else {
                    proof {
                        if b@ == attend_sql_bytes(AttendStatus::No) {
                            assert(b@[0] == 110u8 && b@[1] == 111u8);
                        }
                        if b@ == attend_sql_bytes(AttendStatus::Yes) {
                            assert(b@[0] == 121u8 && b@[1] == 101u8 && b@[2] == 115u8);
                        }
                        if b@ == attend_sql_bytes(AttendStatus::YesPlusOne) {
                            assert(b@[0] == 121u8 && b@[1] == 101u8 && b@[2] == 115u8);
                            assert(b@[3] == 43u8 && b@[4] == 111u8 && b@[5] == 110u8);
                            assert(b@[6] == 101u8);
                        }
                    }
                    Err(SqlDecodeError::UnrecognizedVariant)
                }
            },
        }
    }
}

/// Reading back what was written gives the same status.
pub proof fn lemma_attend_sql_roundtrip(s: AttendStatus)
    ensures
        attend_from_sql(Some(attend_sql_bytes(s))) == Ok::<AttendStatus, SqlDecodeError>(s),
{
    assert(attend_sql_bytes(AttendStatus::No).len() != attend_sql_bytes(AttendStatus::Yes).len());
    assert(attend_sql_bytes(AttendStatus::No).len() != attend_sql_bytes(
        AttendStatus::YesPlusOne,
    ).len());
    assert(attend_sql_bytes(AttendStatus::Yes).len() != attend_sql_bytes(
        AttendStatus::YesPlusOne,
    ).len());
}

/// The only bytes accepted for a status are the bytes written for it.
pub proof fn lemma_attend_sql_decode_exact(b: Seq<u8>, s: AttendStatus)
    requires
        attend_from_sql(Some(b)) == Ok::<AttendStatus, SqlDecodeError>(s),
    ensures
        b == attend_sql_bytes(s),
{
}

/// The answers read back from the status picked by a request are the answers
/// given, except that bringing someone is dropped when not attending.
pub proof fn lemma_answers_roundtrip(will_attend: bool, plus_one: bool)
    ensures
        attendance_of(status_from_answers(will_attend, plus_one)) == (will_attend, will_attend
            && plus_one),
{
}

/// Every status is picked by the answers it splits into.
pub proof fn lemma_status_roundtrip(s: AttendStatus)
    ensures
        status_from_answers(attendance_of(s).0, attendance_of(s).1) == s,
{
}

} // verus!
