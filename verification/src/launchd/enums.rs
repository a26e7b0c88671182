use vstd::prelude::*;
use vstd::string::StringExecFns;

verus! {

/// The session that a service is limited to.
#[derive(Clone, Copy, Debug, PartialEq, Eq, Hash, Structural)]
pub enum SessionType {
    Aqua,
    StandardIO,
    Background,
    LoginWindow,
    System,
    Unknown,
}

impl SessionType {
    /// The name under which the service manager knows the session.
    pub open spec fn spec_name(self) -> Seq<char> {
        match self {
            SessionType::Aqua => "Aqua"@,
            SessionType::StandardIO => "StandardIO"@,
            SessionType::Background => "Background"@,
            SessionType::LoginWindow => "LoginWindow"@,
            SessionType::System => "System"@,
            SessionType::Unknown => "Unknown"@,
        }
    }

    /// The name under which the service manager knows the session.
    pub fn name(self) -> (r: String)
        ensures
            r@ == self.spec_name(),
    {
        match self {
            SessionType::Aqua => String::from_str("Aqua"),
            SessionType::StandardIO => String::from_str("StandardIO"),
            SessionType::Background => String::from_str("Background"),
            SessionType::LoginWindow => String::from_str("LoginWindow"),
            SessionType::System => String::from_str("System"),
            SessionType::Unknown => String::from_str("Unknown"),
        }
    }
}

/// The scope in which the service manager looks for a service. The domains
/// are ordered by their codes, from `System` up to `RequestorDomain`.
#[derive(Clone, Copy, Debug, PartialEq, Eq, Hash, Structural)]
pub enum DomainType {
    System,
    User,
    UserLogin,
    Session,
    PID,
    RequestorUserDomain,
    RequestorDomain,
    Unknown,
}

impl DomainType {
    /// The number that stands for the domain in a request.
    pub open spec fn spec_code(self) -> u64 {
        match self {
            DomainType::System => 1,
            DomainType::User => 2,
            DomainType::UserLogin => 3,
            DomainType::Session => 4,
            DomainType::PID => 5,
            DomainType::RequestorUserDomain => 6,
            DomainType::RequestorDomain => 7,
            DomainType::Unknown => 8,
        }
    }

    /// The domain that a number stands for; `Unknown` for a number that
    /// stands for none.
    pub open spec fn spec_from_code(code: u64) -> DomainType {
        if code == 1 {
            DomainType::System
        } else if code == 2 {
            DomainType::User
        } else if code == 3 {
            DomainType::UserLogin
        } else if code == 4 {
            DomainType::Session
        } else if code == 5 {
            DomainType::PID
        } else if code == 6 {
            DomainType::RequestorUserDomain
        } else if code == 7 {
            DomainType::RequestorDomain
        } else {
            DomainType::Unknown
        }
    }

    /// The number that stands for the domain in a request.
    #[verifier::when_used_as_spec(spec_code)]
    pub fn code(self) -> (r: u64)
        ensures
            r == self.spec_code(),
    {
        match self {
            DomainType::System => 1,
            DomainType::User => 2,
            DomainType::UserLogin => 3,
            DomainType::Session => 4,
            DomainType::PID => 5,
            DomainType::RequestorUserDomain => 6,
            DomainType::RequestorDomain => 7,
            DomainType::Unknown => 8,
        }
    }

    /// The domain that a number stands for; `Unknown` for a number that
    /// stands for none.
    #[verifier::when_used_as_spec(spec_from_code)]
    pub fn from_code(code: u64) -> (r: DomainType)
        ensures
            r == DomainType::spec_from_code(code),
    {
        match code {
            1 => DomainType::System,
            2 => DomainType::User,
            3 => DomainType::UserLogin,
            4 => DomainType::Session,
            5 => DomainType::PID,
            6 => DomainType::RequestorUserDomain,
            7 => DomainType::RequestorDomain,
            _ => DomainType::Unknown,
        }
    }
}

/// A domain is found again from its code, and the codes keep the order of
/// the domains: `System` lowest, `RequestorDomain` above every other named
/// domain.
pub proof fn domain_codes_round_trip(domain: DomainType)
    ensures
        DomainType::spec_from_code(domain.spec_code()) == domain,
        1 <= domain.spec_code() <= 8,
        domain != DomainType::Unknown ==> DomainType::System.spec_code() <= domain.spec_code()
            <= DomainType::RequestorDomain.spec_code(),
{
}

} // verus!
