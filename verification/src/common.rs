//! Types shared by all contracts: errors, denominations, the block a call
//! runs in, and the order of listings.

use vstd::prelude::*;
use vstd::string::*;

verus! {

/// Order of a listing.
#[derive(Clone, Copy, Debug, PartialEq, Eq, Structural)]
pub enum OrderBy {
    Asc,
    Desc,
}

impl OrderBy {
    /// Whether the listing runs from the smallest key upwards.
    pub fn is_ascending(&self) -> (r: bool)
        ensures
            r == (*self == OrderBy::Asc),
    {
        match self {
            OrderBy::Asc => true,
            OrderBy::Desc => false,
        }
    }
}

/// A record that a handler looked for and did not find.
#[derive(Clone, Copy, Debug, PartialEq, Eq, Structural)]
pub enum Missing {
    /// No handler is registered for the id of a reply.
    ReplyId,
    Actor,
    Poll,
    StakerState,
    /// A qualification result arrived while no participation was pending.
    QualifyParticipationContext,
    /// An execution result arrived while no execution was pending.
    PollExecutionContext,
}

/// A rule of the protocol that a call has broken.
#[derive(Clone, Debug, PartialEq, Eq)]
pub enum Violation {
    InactiveCampaign,
    AlreadyParticipated,
    InsufficientBalance,
    LockedExceedsBalance,
    InvalidRewardScheme,
    /// The qualifier turned the actor away, with the reason it gave.
    QualificationRejected(Option<String>),
    InvalidBoostConfig,
    InvalidQuorum,
    InvalidThreshold,
    TitleTooShort,
    TitleTooLong,
    DescriptionTooShort,
    DescriptionTooLong,
    LinkTooShort,
    LinkTooLong,
    /// The deposit sent with a proposal is below this minimum.
    DepositTooSmall(u128),
    PollDoesNotExist,
    PollNotInProgress,
    AlreadyVoted,
    InsufficientStake,
    VotingPeriodNotExpired,
    PollNotPassed,
    ExecutionDelayNotExpired,
    NoExecutions,
    AlreadyExecuted,
    SnapshotAlreadyOccurred,
    SnapshotTooEarly,
    InsufficientFunds,
    NothingStaked,
    UnstakeTooMany,
    InvalidMinTokenBalances,
    InvalidMinLunaStaking,
    /// The host does not take the text for an address.
    InvalidAddress,
    UstOnly,
    ZeroUst,
    /// A call that the contract makes on itself came from elsewhere.
    NotTheContract,
    UnbondTooMuch,
    InvalidSchedule,
}

/// Why a call was aborted. An aborted call leaves the state as it was.
#[derive(Clone, Debug, PartialEq, Eq)]
pub enum ContractError {
    /// The caller lacks the permission the call needs.
    Unauthorized,
    /// A rule of the protocol was broken.
    Generic(Violation),
    /// A number is undefined or leaves its range: a subtraction below zero, a
    /// division by zero, a result beyond the bits of its type.
    Overflow,
    /// A record was looked up and is absent.
    NotFound(Missing),
}

/// The character of a decimal digit.
pub open spec fn digit_char(digit: nat) -> char {
    if digit == 0 {
        '0'
    } else if digit == 1 {
        '1'
    } else if digit == 2 {
        '2'
    } else if digit == 3 {
        '3'
    } else if digit == 4 {
        '4'
    } else if digit == 5 {
        '5'
    } else if digit == 6 {
        '6'
    } else if digit == 7 {
        '7'
    } else if digit == 8 {
        '8'
    } else {
        '9'
    }
}

/// A number as it is written in decimal digits, without leading zeros.
pub open spec fn decimal_digits(n: nat) -> Seq<char>
    decreases n,
{
    if n < 10 {
        seq![digit_char(n)]
    } else {
        decimal_digits(n / 10).push(digit_char(n % 10))
    }
}

/// The text of a decimal digit.
fn digit_text(digit: u8) -> (r: &'static str)
    requires
        digit < 10,
    ensures
        r@ == seq![digit_char(digit as nat)],
{
    proof {
        reveal_strlit("0");
        reveal_strlit("1");
        reveal_strlit("2");
        reveal_strlit("3");
        reveal_strlit("4");
        reveal_strlit("5");
        reveal_strlit("6");
        reveal_strlit("7");
        reveal_strlit("8");
        reveal_strlit("9");
    }
    let text = if digit == 0 {
        "0"
    } else if digit == 1 {
        "1"
    } else if digit == 2 {
        "2"
    } else if digit == 3 {
        "3"
    } else if digit == 4 {
        "4"
    } else if digit == 5 {
        "5"
    } else if digit == 6 {
        "6"
    } else if digit == 7 {
        "7"
    } else if digit == 8 {
        "8"
    } else {
        "9"
    };
    assert(text@ =~= seq![digit_char(digit as nat)]);
    text
}

/// The digits of `n` from its `k`-th digit upwards, counted from the last.
pub open spec fn leading_digits(n: nat, k: nat) -> nat
    decreases k,
{
    if k == 0 {
        n
    } else {
        leading_digits(n, (k - 1) as nat) / 10
    }
}

/// A number as it is written in decimal digits, without leading zeros.
pub fn decimal_text(n: u128) -> (r: String)
    ensures
        r@ == decimal_digits(n as nat),
{
    // the digits, last first
    let mut digits: Vec<u8> = Vec::new();
    let mut rest: u128 = n;
    while rest >= 10
        invariant
            rest == leading_digits(n as nat, digits@.len()),
            forall|k: int|
                0 <= k < digits@.len() ==> #[trigger] digits@[k] == leading_digits(n as nat, k as nat)
                    % 10 && leading_digits(n as nat, k as nat) >= 10,
        decreases rest,
    {
        digits.push((rest % 10) as u8);
        rest = rest / 10;
    }
    let mut text = String::from_str(digit_text(rest as u8));
    let mut i: usize = digits.len();
    while i > 0
        invariant
            i <= digits@.len(),
            forall|k: int|
                0 <= k < digits@.len() ==> #[trigger] digits@[k] == leading_digits(n as nat, k as nat)
                    % 10 && leading_digits(n as nat, k as nat) >= 10,
            text@ == decimal_digits(leading_digits(n as nat, i as nat)),
        decreases i,
    {
        i -= 1;
        let ghost upper = leading_digits(n as nat, i as nat);
        assert(leading_digits(n as nat, (i + 1) as nat) == upper / 10);
        assert(digits@[i as int] == upper % 10 && upper >= 10);
        text.append(digit_text(digits[i]));
        assert(seq![digit_char((upper % 10) as nat)] =~= Seq::<char>::empty().push(
            digit_char((upper % 10) as nat),
        ));
        assert(decimal_digits(upper / 10) + seq![digit_char((upper % 10) as nat)] =~= decimal_digits(
            upper / 10,
        ).push(digit_char((upper % 10) as nat)));
    }
    text
}

impl Violation {
    /// The text shown to the caller.
    pub open spec fn text(&self) -> Seq<char> {
        match self {
            Violation::InactiveCampaign => "Inactive campaign"@,
            Violation::AlreadyParticipated => "Already participated"@,
            Violation::InsufficientBalance => "Insufficient balance"@,
            Violation::LockedExceedsBalance => "locked balance can't greater than balance"@,
            Violation::InvalidRewardScheme => "Invalid reward scheme"@,
            Violation::QualificationRejected(reason) => match reason {
                Some(text) => text@,
                None => "Qualification rejected"@,
            },
            Violation::InvalidBoostConfig => "invalid boost_config"@,
            Violation::InvalidQuorum => "quorum must be 0 to 1"@,
            Violation::InvalidThreshold => "threshold must be 0 to 1"@,
            Violation::TitleTooShort => "Title too short"@,
            Violation::TitleTooLong => "Title too long"@,
            Violation::DescriptionTooShort => "Description too short"@,
            Violation::DescriptionTooLong => "Description too long"@,
            Violation::LinkTooShort => "Link too short"@,
            Violation::LinkTooLong => "Link too long"@,
            Violation::DepositTooSmall(minimum) => "Must deposit more than "@ + decimal_digits(
                *minimum as nat,
            ) + " token"@,
            Violation::PollDoesNotExist => "Poll does not exist"@,
            Violation::PollNotInProgress => "Poll is not in progress"@,
            Violation::AlreadyVoted => "User has already voted."@,
            Violation::InsufficientStake => "User does not have enough staked tokens."@,
            Violation::VotingPeriodNotExpired => "Voting period has not expired"@,
            Violation::PollNotPassed => "Poll is not in passed status"@,
            Violation::ExecutionDelayNotExpired => "Execution delay period has not expired"@,
            Violation::NoExecutions => "The poll does not have executions"@,
            Violation::AlreadyExecuted => "Already executed"@,
            Violation::SnapshotAlreadyOccurred => "Snapshot has already occurred"@,
            Violation::SnapshotTooEarly => "Cannot snapshot at this height"@,
            Violation::InsufficientFunds => "Insufficient funds sent"@,
            Violation::NothingStaked => "Nothing staked"@,
            Violation::UnstakeTooMany => "User is trying to unstake too many tokens."@,
            Violation::InvalidMinTokenBalances => "Invalid input min_token_balances"@,
            Violation::InvalidMinLunaStaking => "Invalid input min_luna_staking"@,
            Violation::InvalidAddress => "Invalid address"@,
            Violation::UstOnly => "UST only."@,
            Violation::ZeroUst => "Send UST more than zero."@,
            Violation::NotTheContract => "unauthorized"@,
            Violation::UnbondTooMuch => "Cannot unbond more than bond amount"@,
            Violation::InvalidSchedule => "invalid schedule"@,
        }
    }

    /// The text shown to the caller.
    pub fn message(&self) -> (r: String)
        ensures
            r@ == self.text(),
    {
        match self {
            Violation::InactiveCampaign => String::from_str("Inactive campaign"),
            Violation::AlreadyParticipated => String::from_str("Already participated"),
            Violation::InsufficientBalance => String::from_str("Insufficient balance"),
            Violation::LockedExceedsBalance => String::from_str(
                "locked balance can't greater than balance",
            ),
            Violation::InvalidRewardScheme => String::from_str("Invalid reward scheme"),
            Violation::QualificationRejected(reason) => match reason {
                Some(text) => text.clone(),
                None => String::from_str("Qualification rejected"),
            },
            Violation::InvalidBoostConfig => String::from_str("invalid boost_config"),
            Violation::InvalidQuorum => String::from_str("quorum must be 0 to 1"),
            Violation::InvalidThreshold => String::from_str("threshold must be 0 to 1"),
            Violation::TitleTooShort => String::from_str("Title too short"),
            Violation::TitleTooLong => String::from_str("Title too long"),
            Violation::DescriptionTooShort => String::from_str("Description too short"),
            Violation::DescriptionTooLong => String::from_str("Description too long"),
            Violation::LinkTooShort => String::from_str("Link too short"),
            Violation::LinkTooLong => String::from_str("Link too long"),
            Violation::DepositTooSmall(minimum) => {
                let mut text = String::from_str("Must deposit more than ");
                let number = decimal_text(*minimum);
                text.append(number.as_str());
                text.append(" token");
                text
            },
            Violation::PollDoesNotExist => String::from_str("Poll does not exist"),
            Violation::PollNotInProgress => String::from_str("Poll is not in progress"),
            Violation::AlreadyVoted => String::from_str("User has already voted."),
            Violation::InsufficientStake => String::from_str(
                "User does not have enough staked tokens.",
            ),
            Violation::VotingPeriodNotExpired => String::from_str("Voting period has not expired"),
            Violation::PollNotPassed => String::from_str("Poll is not in passed status"),
            Violation::ExecutionDelayNotExpired => String::from_str(
                "Execution delay period has not expired",
            ),
            Violation::NoExecutions => String::from_str("The poll does not have executions"),
            Violation::AlreadyExecuted => String::from_str("Already executed"),
            Violation::SnapshotAlreadyOccurred => String::from_str("Snapshot has already occurred"),
            Violation::SnapshotTooEarly => String::from_str("Cannot snapshot at this height"),
            Violation::InsufficientFunds => String::from_str("Insufficient funds sent"),
            Violation::NothingStaked => String::from_str("Nothing staked"),
            Violation::UnstakeTooMany => String::from_str(
                "User is trying to unstake too many tokens.",
            ),
            Violation::InvalidMinTokenBalances => String::from_str(
                "Invalid input min_token_balances",
            ),
            Violation::InvalidMinLunaStaking => String::from_str("Invalid input min_luna_staking"),
            Violation::InvalidAddress => String::from_str("Invalid address"),
            Violation::UstOnly => String::from_str("UST only."),
            Violation::ZeroUst => String::from_str("Send UST more than zero."),
            Violation::NotTheContract => String::from_str("unauthorized"),
            Violation::UnbondTooMuch => String::from_str("Cannot unbond more than bond amount"),
            Violation::InvalidSchedule => String::from_str("invalid schedule"),
        }
    }
}

/// What a [`Denom`] names: a native coin or the address of a token contract.
pub enum DenomView {
    Native(Seq<char>),
    Token(Seq<char>),
}

/// A kind of asset: a coin of the chain or a token held by a contract.
#[derive(Clone, Debug, PartialEq, Eq)]
pub enum Denom {
    Native(String),
    Token(String),
}

impl View for Denom {
    type V = DenomView;

    open spec fn view(&self) -> DenomView {
        match self {
            Denom::Native(name) => DenomView::Native(name@),
            Denom::Token(address) => DenomView::Token(address@),
        }
    }
}

impl Denom {
    /// Whether both name the same asset.
    pub fn same(&self, other: &Denom) -> (r: bool)
        ensures
            r == (self@ == other@),
    {
        match self {
            Denom::Native(a) => match other {
                Denom::Native(b) => *a == *b,
                Denom::Token(_) => false,
            },
            Denom::Token(a) => match other {
                Denom::Native(_) => false,
                Denom::Token(b) => *a == *b,
            },
        }
    }

    /// A copy naming the same asset.
    pub fn duplicate(&self) -> (r: Denom)
        ensures
            r == *self,
    {
        match self {
            Denom::Native(a) => Denom::Native(a.clone()),
            Denom::Token(a) => Denom::Token(a.clone()),
        }
    }
}

/// The block in which a call runs.
#[derive(Clone, Debug, PartialEq, Eq)]
pub struct BlockInfo {
    pub height: u64,
    /// Nanoseconds since the epoch.
    pub time: u64,
    pub chain_id: String,
}

/// The block a call runs in and the address of the contract it runs on.
#[derive(Clone, Debug, PartialEq, Eq)]
pub struct Env {
    pub block: BlockInfo,
    pub contract_address: String,
}

/// A message to a contract, with the place it takes among the executions it
/// belongs to.
#[derive(Clone, Debug, PartialEq, Eq)]
pub struct Execution {
    /// Executions run in ascending order of this key.
    pub order: u64,
    pub contract: String,
    /// The encoded message.
    pub msg: Vec<u8>,
}

/// What an execution holds.
pub struct ExecutionView {
    pub order: u64,
    pub contract: Seq<char>,
    pub msg: Seq<u8>,
}

impl View for Execution {
    type V = ExecutionView;

    open spec fn view(&self) -> ExecutionView {
        ExecutionView { order: self.order, contract: self.contract@, msg: self.msg@ }
    }
}

/// What each of the executions holds, in order.
pub open spec fn execution_views(s: Seq<Execution>) -> Seq<ExecutionView> {
    s.map_values(|e: Execution| e@)
}

/// A copy of an optional address.
pub fn duplicate_address(address: &Option<String>) -> (r: Option<String>)
    ensures
        r == *address,
{
    match address {
        Some(a) => Some(a.clone()),
        None => None,
    }
}

/// Whether `list` holds `address`.
pub fn contains_address(list: &Vec<String>, address: &String) -> (r: bool)
    ensures
        r == exists|i: int| 0 <= i < list.len() && #[trigger] list[i]@ == address@,
{
    let mut i: usize = 0;
    while i < list.len()
        invariant
            i <= list.len(),
            forall|j: int| 0 <= j < i ==> #[trigger] list[j]@ != address@,
        decreases list.len() - i,
    {
        if list[i] == *address {
            return true;
        }
        i += 1;
    }
    false
}

} // verus!
