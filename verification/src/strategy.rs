//! The outcome of running a trading strategy: which position it takes, and
//! how the strategy script's raw answer is read into a position or an error.
use vstd::prelude::*;
use vstd::string::StringExecFns;

verus! {

/// A trading position.
#[derive(Clone, Copy, PartialEq, Eq, Structural, Debug)]
pub enum TradingPosition {
    Long,
    Short,
    Neutral,
}

/// Why a strategy could not be evaluated.
pub enum EvalError {
    /// The strategy is not usable, with the reason.
    InvalidStrategy(String),
}

impl EvalError {
    /// The reason, for an invalid strategy.
    pub closed spec fn reason(&self) -> Seq<char> {
        match self {
            EvalError::InvalidStrategy(s) => s@,
        }
    }

    /// The reason text.
    pub fn message(&self) -> (s: &str)
        ensures
            s@ == self.reason(),
    {
        match self {
            EvalError::InvalidStrategy(s) => s.as_str(),
        }
    }
}

/// The position a word names: `long`, `short` or `neutral`.
pub open spec fn position_named(word: Seq<char>) -> Option<TradingPosition> {
    if word == "long"@ {
        Some(TradingPosition::Long)
    } else if word == "short"@ {
        Some(TradingPosition::Short)
    } else if word == "neutral"@ {
        Some(TradingPosition::Neutral)
    } else {
        None
    }
}

impl TradingPosition {
    /// The position a word names, if it names one.
    pub fn from_word(word: &str) -> (p: Option<TradingPosition>)
        ensures
            p == position_named(word@),
    {
        let w = word.to_owned();
        if w == "long".to_owned() {
            Some(TradingPosition::Long)
        } else if w == "short".to_owned() {
            Some(TradingPosition::Short)
        } else if w == "neutral".to_owned() {
            Some(TradingPosition::Neutral)
        } else {
            None
        }
    }

    /// The word for the position.
    pub fn as_word(&self) -> (w: &'static str)
        ensures
            position_named(w@) == Some(*self),
    {
        let w = match self {
            TradingPosition::Long => "long",
            TradingPosition::Short => "short",
            TradingPosition::Neutral => "neutral",
        };
        proof {
            reveal_strlit("long");
            reveal_strlit("short");
            reveal_strlit("neutral");
            assert("long"@.len() == 4);
            assert("short"@.len() == 5);
            assert("neutral"@.len() == 7);
            assert("short"@ != "long"@);
            assert("neutral"@ != "long"@);
            assert("neutral"@ != "short"@);
        }
        w
    }
}

/// A value answered by a strategy script: a number (by whether it is
/// negative), a string (its text, when it is valid UTF-8), or anything else;
/// each with its debug rendering.
pub enum ScriptValue {
    Number { negative: bool, debug: String },
    Text { text: Option<String>, debug: String },
    Other { debug: String },
}

impl ScriptValue {
    /// The value's debug rendering.
    pub closed spec fn rendering(&self) -> Seq<char> {
        match self {
            ScriptValue::Number { debug, .. } => debug@,
            ScriptValue::Text { debug, .. } => debug@,
            ScriptValue::Other { debug } => debug@,
        }
    }

    fn debug_str(&self) -> (s: &str)
        ensures
            s@ == self.rendering(),
    {
        match self {
            ScriptValue::Number { debug, .. } => debug.as_str(),
            ScriptValue::Text { debug, .. } => debug.as_str(),
            ScriptValue::Other { debug } => debug.as_str(),
        }
    }
}

/// Whether the answer `(value, error)` can be read: an error string that is
/// not valid UTF-8, with a value that is neither a number nor a valid
/// string, cannot.
pub open spec fn readable_answer(value: &ScriptValue, error: &ScriptValue) -> bool {
    !(!(value is Number) && !(value matches ScriptValue::Text { text: Some(_), .. })
        && error matches ScriptValue::Text { text: None, .. })
}

/// Read a strategy script's answer `(value, error)` into a position: a
/// number means short when negative and long otherwise; a valid string must
/// name a position ("Expected `short` `long` or `neutral`, <s> was provided"
/// otherwise); failing those, an error string is reported ("Invalid strategy
/// output : <s>"), and any other error value by its rendering.
pub fn read_answer(value: ScriptValue, error: ScriptValue) -> (r: Result<TradingPosition, EvalError>)
    requires
        readable_answer(&value, &error),
    ensures
        match value {
            ScriptValue::Number { negative, .. } => r == Ok::<TradingPosition, EvalError>(
                if negative { TradingPosition::Short } else { TradingPosition::Long },
            ),
            ScriptValue::Text { text: Some(s), .. } => match position_named(s@) {
                Some(p) => r == Ok::<TradingPosition, EvalError>(p),
                None => r matches Err(e) && e.reason() == "Expected `short` `long` or `neutral`, "@ + s@
                    + " was provided"@,
            },
            _ => match error {
                ScriptValue::Text { text: Some(s), .. } => r matches Err(e) && e.reason()
                    == "Invalid strategy output : "@ + s@,
                _ => r matches Err(e) && e.reason() == "Invalid strategy output : "@ + error.rendering(),
            },
        },
{
    match value {
        ScriptValue::Number { negative, .. } => {
            if negative {
                Ok(TradingPosition::Short)
            } else {
                Ok(TradingPosition::Long)
            }
        },
        ScriptValue::Text { text: Some(s), .. } => {
            match TradingPosition::from_word(s.as_str()) {
                Some(p) => Ok(p),
                None => {
                    let m = "Expected `short` `long` or `neutral`, ".to_owned().concat(s.as_str()).concat(" was provided");
                    Err(EvalError::InvalidStrategy(m))
                },
            }
        },
        _ => {
            match &error {
                ScriptValue::Text { text: Some(s), .. } => {
                    let m = "Invalid strategy output : ".to_owned().concat(s.as_str());
                    Err(EvalError::InvalidStrategy(m))
                },
                _ => {
                    let m = "Invalid strategy output : ".to_owned().concat(error.debug_str());
                    Err(EvalError::InvalidStrategy(m))
                },
            }
        },
    }
}

/// The error for a strategy script that could not be run, from the
/// interpreter's message.
pub fn launch_failed(reason: &str) -> (e: EvalError)
    ensures
        e.reason() == "Could not launch strategy: "@ + reason@,
{
    EvalError::InvalidStrategy("Could not launch strategy: ".to_owned().concat(reason))
}

/// The error for a strategy script that could not be loaded, from the
/// interpreter's message.
pub fn load_failed(reason: &str) -> (e: EvalError)
    ensures
        e.reason() == reason@,
{
    EvalError::InvalidStrategy(reason.to_owned())
}

/// The first time of the price history a strategy is evaluated on: the time
/// of the last candle minus one period, times in milliseconds and the period
/// in seconds.
pub fn eval_window_start(last: i64, period_seconds: i64) -> (since: i64)
    requires
        i64::MIN <= period_seconds * 1000 <= i64::MAX,
        i64::MIN <= last - period_seconds * 1000 <= i64::MAX,
    ensures
        since == last - period_seconds * 1000,
{
    last - period_seconds * 1000
}

/// Each of the three words names its own position, and every position is
/// named by one of them.
pub proof fn law_positions_named(word: Seq<char>)
    ensures
        position_named(word) is Some ==> word == "long"@ || word == "short"@ || word == "neutral"@,
        position_named("long"@) == Some(TradingPosition::Long),
        position_named("short"@) == Some(TradingPosition::Short),
        position_named("neutral"@) == Some(TradingPosition::Neutral),
{
    reveal_strlit("long");
    reveal_strlit("short");
    reveal_strlit("neutral");
    assert("long"@.len() == 4);
    assert("short"@.len() == 5);
    assert("neutral"@.len() == 7);
    assert("short"@ != "long"@);
    assert("neutral"@ != "long"@);
    assert("neutral"@ != "short"@);
}

} // verus!
