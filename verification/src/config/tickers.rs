//! The ticker catalogue: every symbol the strategy knows, its text form, and
//! the subset traded by default.

use vstd::prelude::*;
use crate::text::{decimal, decimal_string, str_eq, trim_text, trimmed};
use crate::data::parquet_meta::{split_commas, split_on_commas, texts};
use crate::data::cache::{day_dir_spec, is_char_boundary_at, month_part, raw_path_for};
use crate::data::hist::VERSION_RAW;
use crate::data::paths::path_join;

verus! {

/// A US equity symbol known to the strategy.
#[derive(Debug, Clone, Copy, PartialEq, Eq, Hash, Structural)]
pub enum Ticker {
    AAPL,
    GOOG,
    MSFT,
    JPM,
    BAC,
    GS,
    WFC,
    MS,
    AXP,
    C,
    DIS,
    HD,
    WMT,
    LOW,
    MCD,
    PG,
    KO,
    PEP,
    CL,
    COST,
    CAT,
    HON,
    DE,
    UNP,
    JNJ,
    UNH,
    MRK,
    PFE,
    LLY,
    ABBV,
    V,
    MA,
    XOM,
    CVX,
    CCJ,
    NRG,
    SO,
    NEE,
    DUK,
}

/// Symbol text of each ticker.
pub open spec fn ticker_name(t: Ticker) -> Seq<char> {
    match t {
        Ticker::AAPL => "AAPL"@,
        Ticker::GOOG => "GOOG"@,
        Ticker::MSFT => "MSFT"@,
        Ticker::JPM => "JPM"@,
        Ticker::BAC => "BAC"@,
        Ticker::GS => "GS"@,
        Ticker::WFC => "WFC"@,
        Ticker::MS => "MS"@,
        Ticker::AXP => "AXP"@,
        Ticker::C => "C"@,
        Ticker::DIS => "DIS"@,
        Ticker::HD => "HD"@,
        Ticker::WMT => "WMT"@,
        Ticker::LOW => "LOW"@,
        Ticker::MCD => "MCD"@,
        Ticker::PG => "PG"@,
        Ticker::KO => "KO"@,
        Ticker::PEP => "PEP"@,
        Ticker::CL => "CL"@,
        Ticker::COST => "COST"@,
        Ticker::CAT => "CAT"@,
        Ticker::HON => "HON"@,
        Ticker::DE => "DE"@,
        Ticker::UNP => "UNP"@,
        Ticker::JNJ => "JNJ"@,
        Ticker::UNH => "UNH"@,
        Ticker::MRK => "MRK"@,
        Ticker::PFE => "PFE"@,
        Ticker::LLY => "LLY"@,
        Ticker::ABBV => "ABBV"@,
        Ticker::V => "V"@,
        Ticker::MA => "MA"@,
        Ticker::XOM => "XOM"@,
        Ticker::CVX => "CVX"@,
        Ticker::CCJ => "CCJ"@,
        Ticker::NRG => "NRG"@,
        Ticker::SO => "SO"@,
        Ticker::NEE => "NEE"@,
        Ticker::DUK => "DUK"@,
    }
}

/// The ticker whose symbol text is `s`, if any.
pub open spec fn ticker_from_name(s: Seq<char>) -> Option<Ticker> {
    if s == "AAPL"@ {
        Some(Ticker::AAPL)
    } else if s == "GOOG"@ {
        Some(Ticker::GOOG)
    } else if s == "MSFT"@ {
        Some(Ticker::MSFT)
    } else if s == "JPM"@ {
        Some(Ticker::JPM)
    } else if s == "BAC"@ {
        Some(Ticker::BAC)
    } else if s == "GS"@ {
        Some(Ticker::GS)
    } else if s == "WFC"@ {
        Some(Ticker::WFC)
    } else if s == "MS"@ {
        Some(Ticker::MS)
    } else if s == "AXP"@ {
        Some(Ticker::AXP)
    } else if s == "C"@ {
        Some(Ticker::C)
    } else if s == "DIS"@ {
        Some(Ticker::DIS)
    } else if s == "HD"@ {
        Some(Ticker::HD)
    } else if s == "WMT"@ {
        Some(Ticker::WMT)
    } else if s == "LOW"@ {
        Some(Ticker::LOW)
    } else if s == "MCD"@ {
        Some(Ticker::MCD)
    } else if s == "PG"@ {
        Some(Ticker::PG)
    } else if s == "KO"@ {
        Some(Ticker::KO)
    } else if s == "PEP"@ {
        Some(Ticker::PEP)
    } else if s == "CL"@ {
        Some(Ticker::CL)
    } else if s == "COST"@ {
        Some(Ticker::COST)
    } else if s == "CAT"@ {
        Some(Ticker::CAT)
    } else if s == "HON"@ {
        Some(Ticker::HON)
    } else if s == "DE"@ {
        Some(Ticker::DE)
    } else if s == "UNP"@ {
        Some(Ticker::UNP)
    } else if s == "JNJ"@ {
        Some(Ticker::JNJ)
    } else if s == "UNH"@ {
        Some(Ticker::UNH)
    } else if s == "MRK"@ {
        Some(Ticker::MRK)
    } else if s == "PFE"@ {
        Some(Ticker::PFE)
    } else if s == "LLY"@ {
        Some(Ticker::LLY)
    } else if s == "ABBV"@ {
        Some(Ticker::ABBV)
    } else if s == "V"@ {
        Some(Ticker::V)
    } else if s == "MA"@ {
        Some(Ticker::MA)
    } else if s == "XOM"@ {
        Some(Ticker::XOM)
    } else if s == "CVX"@ {
        Some(Ticker::CVX)
    } else if s == "CCJ"@ {
        Some(Ticker::CCJ)
    } else if s == "NRG"@ {
        Some(Ticker::NRG)
    } else if s == "SO"@ {
        Some(Ticker::SO)
    } else if s == "NEE"@ {
        Some(Ticker::NEE)
    } else if s == "DUK"@ {
        Some(Ticker::DUK)
    } else {
        None
    }
}

/// Symbol used by dashboards for the aggregate (all-ticker) view.
pub const ALL_TICKERS_SYMBOL: &'static str = "ALL";

/// Why a symbol could not be read as a [`Ticker`].
#[derive(Debug, PartialEq, Eq)]
pub struct UnknownTicker {
    /// The rejected text.
    pub symbol: String,
}

impl Ticker {
    /// Every known ticker, in catalogue order.
    pub const ALL: [Ticker; 39] = [
        Ticker::AAPL,
        Ticker::GOOG,
        Ticker::MSFT,
        Ticker::JPM,
        Ticker::BAC,
        Ticker::GS,
        Ticker::WFC,
        Ticker::MS,
        Ticker::AXP,
        Ticker::C,
        Ticker::DIS,
        Ticker::HD,
        Ticker::WMT,
        Ticker::LOW,
        Ticker::MCD,
        Ticker::PG,
        Ticker::KO,
        Ticker::PEP,
        Ticker::CL,
        Ticker::COST,
        Ticker::CAT,
        Ticker::HON,
        Ticker::DE,
        Ticker::UNP,
        Ticker::JNJ,
        Ticker::UNH,
        Ticker::MRK,
        Ticker::PFE,
        Ticker::LLY,
        Ticker::ABBV,
        Ticker::V,
        Ticker::MA,
        Ticker::XOM,
        Ticker::CVX,
        Ticker::CCJ,
        Ticker::NRG,
        Ticker::SO,
        Ticker::NEE,
        Ticker::DUK,
    ];

    /// Tickers traded by default.
    pub const STRATEGY: [Ticker; 15] = [
        Ticker::AAPL,
        Ticker::GOOG,
        Ticker::MSFT,
        Ticker::JPM,
        Ticker::GS,
        Ticker::WMT,
        Ticker::HD,
        Ticker::DIS,
        Ticker::KO,
        Ticker::CAT,
        Ticker::MS,
        Ticker::NRG,
        Ticker::SO,
        Ticker::MCD,
        Ticker::COST,
    ];

    /// Symbol text, e.g. `"AAPL"`.
    pub fn as_str(self) -> (r: &'static str)
        ensures
            r@ == ticker_name(self),
    {
        match self {
            Ticker::AAPL => "AAPL",
            Ticker::GOOG => "GOOG",
            Ticker::MSFT => "MSFT",
            Ticker::JPM => "JPM",
            Ticker::BAC => "BAC",
            Ticker::GS => "GS",
            Ticker::WFC => "WFC",
            Ticker::MS => "MS",
            Ticker::AXP => "AXP",
            Ticker::C => "C",
            Ticker::DIS => "DIS",
            Ticker::HD => "HD",
            Ticker::WMT => "WMT",
            Ticker::LOW => "LOW",
            Ticker::MCD => "MCD",
            Ticker::PG => "PG",
            Ticker::KO => "KO",
            Ticker::PEP => "PEP",
            Ticker::CL => "CL",
            Ticker::COST => "COST",
            Ticker::CAT => "CAT",
            Ticker::HON => "HON",
            Ticker::DE => "DE",
            Ticker::UNP => "UNP",
            Ticker::JNJ => "JNJ",
            Ticker::UNH => "UNH",
            Ticker::MRK => "MRK",
            Ticker::PFE => "PFE",
            Ticker::LLY => "LLY",
            Ticker::ABBV => "ABBV",
            Ticker::V => "V",
            Ticker::MA => "MA",
            Ticker::XOM => "XOM",
            Ticker::CVX => "CVX",
            Ticker::CCJ => "CCJ",
            Ticker::NRG => "NRG",
            Ticker::SO => "SO",
            Ticker::NEE => "NEE",
            Ticker::DUK => "DUK",
        }
    }

    /// The ticker named by `s`, or `None` for an unknown symbol.
    pub fn from_str_opt(s: &str) -> (r: Option<Ticker>)
        ensures
            r == ticker_from_name(s@),
    {
        if str_eq(s, "AAPL") {
            Some(Ticker::AAPL)
        } else if str_eq(s, "GOOG") {
            Some(Ticker::GOOG)
        } else if str_eq(s, "MSFT") {
            Some(Ticker::MSFT)
        } else if str_eq(s, "JPM") {
            Some(Ticker::JPM)
        } else if str_eq(s, "BAC") {
            Some(Ticker::BAC)
        } else if str_eq(s, "GS") {
            Some(Ticker::GS)
        } else if str_eq(s, "WFC") {
            Some(Ticker::WFC)
        } else if str_eq(s, "MS") {
            Some(Ticker::MS)
        } else if str_eq(s, "AXP") {
            Some(Ticker::AXP)
        } else if str_eq(s, "C") {
            Some(Ticker::C)
        } else if str_eq(s, "DIS") {
            Some(Ticker::DIS)
        } else if str_eq(s, "HD") {
            Some(Ticker::HD)
        } else if str_eq(s, "WMT") {
            Some(Ticker::WMT)
        } else if str_eq(s, "LOW") {
            Some(Ticker::LOW)
        } else if str_eq(s, "MCD") {
            Some(Ticker::MCD)
        } else if str_eq(s, "PG") {
            Some(Ticker::PG)
        } else if str_eq(s, "KO") {
            Some(Ticker::KO)
        } else if str_eq(s, "PEP") {
            Some(Ticker::PEP)
        } else if str_eq(s, "CL") {
            Some(Ticker::CL)
        } else if str_eq(s, "COST") {
            Some(Ticker::COST)
        } else if str_eq(s, "CAT") {
            Some(Ticker::CAT)
        } else if str_eq(s, "HON") {
            Some(Ticker::HON)
        } else if str_eq(s, "DE") {
            Some(Ticker::DE)
        } else if str_eq(s, "UNP") {
            Some(Ticker::UNP)
        } else if str_eq(s, "JNJ") {
            Some(Ticker::JNJ)
        } else if str_eq(s, "UNH") {
            Some(Ticker::UNH)
        } else if str_eq(s, "MRK") {
            Some(Ticker::MRK)
        } else if str_eq(s, "PFE") {
            Some(Ticker::PFE)
        } else if str_eq(s, "LLY") {
            Some(Ticker::LLY)
        } else if str_eq(s, "ABBV") {
            Some(Ticker::ABBV)
        } else if str_eq(s, "V") {
            Some(Ticker::V)
        } else if str_eq(s, "MA") {
            Some(Ticker::MA)
        } else if str_eq(s, "XOM") {
            Some(Ticker::XOM)
        } else if str_eq(s, "CVX") {
            Some(Ticker::CVX)
        } else if str_eq(s, "CCJ") {
            Some(Ticker::CCJ)
        } else if str_eq(s, "NRG") {
            Some(Ticker::NRG)
        } else if str_eq(s, "SO") {
            Some(Ticker::SO)
        } else if str_eq(s, "NEE") {
            Some(Ticker::NEE)
        } else if str_eq(s, "DUK") {
            Some(Ticker::DUK)
        } else {
            None
        }
    }

    /// Whether the WallBounce (calm-path) signal is enabled for this ticker.
    pub fn is_wb_enabled(self) -> (r: bool)
        ensures
            r == (self == Ticker::JPM),
    {
        match self {
            Ticker::JPM => true,
            _ => false,
        }
    }

    /// Cache file of the raw wide options data of a day,
    /// `raw_options_wide_v{VERSION_RAW}.json.gz` in the ticker's day directory.
    pub fn raw_wide_path(self, scope: &str, date: &str) -> (r: String)
        requires
            is_char_boundary_at(date, 7),
        ensures
            r@ == path_join(
                day_dir_spec(scope@, ticker_name(self), month_part(date), date@),
                "raw_"@ + ("options_wide_v"@ + decimal(VERSION_RAW as nat)) + ".json.gz"@,
            ),
    {
        let v = decimal_string(VERSION_RAW as u64);
        let tag = crate::text::concat("options_wide_v", v.as_str());
        raw_path_for(scope, tag.as_str(), self.as_str(), date)
    }

    /// The symbol as an owned string (what the ticker prints as).
    pub fn to_display_string(self) -> (r: String)
        ensures
            r@ == ticker_name(self),
    {
        crate::text::owned(self.as_str())
    }
}

impl core::str::FromStr for Ticker {
    type Err = UnknownTicker;

    fn from_str(s: &str) -> (r: Result<Ticker, UnknownTicker>)
        ensures
            match ticker_from_name(s@) {
                Some(t) => r == Ok::<Ticker, UnknownTicker>(t),
                None => r matches Err(e) && e.symbol@ == s@,
            },
    {
        match Ticker::from_str_opt(s) {
            Some(t) => Ok(t),
            None => Err(UnknownTicker { symbol: crate::text::owned(s) }),
        }
    }
}

/// Reading a ticker's own symbol gives the ticker back.
pub proof fn law_name_roundtrip(t: Ticker)
    ensures
        ticker_from_name(ticker_name(t)) == Some(t),
{
    match t {
        Ticker::AAPL => {
            reveal_strlit("AAPL");
        }
        Ticker::GOOG => {
            reveal_strlit("AAPL");
            reveal_strlit("GOOG");
            assert("GOOG"@[0] != "AAPL"@[0]);
        }
        Ticker::MSFT => {
            reveal_strlit("AAPL");
            reveal_strlit("GOOG");
            reveal_strlit("MSFT");
            assert("MSFT"@[0] != "AAPL"@[0]);
            assert("MSFT"@[0] != "GOOG"@[0]);
        }
        Ticker::JPM => {
            reveal_strlit("AAPL");
            reveal_strlit("GOOG");
            reveal_strlit("MSFT");
            reveal_strlit("JPM");
            assert("JPM"@.len() != "AAPL"@.len());
            assert("JPM"@.len() != "GOOG"@.len());
            assert("JPM"@.len() != "MSFT"@.len());
        }
        Ticker::BAC => {
            reveal_strlit("AAPL");
            reveal_strlit("GOOG");
            reveal_strlit("MSFT");
            reveal_strlit("JPM");
            reveal_strlit("BAC");
            assert("BAC"@.len() != "AAPL"@.len());
            assert("BAC"@.len() != "GOOG"@.len());
            assert("BAC"@.len() != "MSFT"@.len());
            assert("BAC"@[0] != "JPM"@[0]);
        }
        Ticker::GS => {
            reveal_strlit("AAPL");
            reveal_strlit("GOOG");
            reveal_strlit("MSFT");
            reveal_strlit("JPM");
            reveal_strlit("BAC");
            reveal_strlit("GS");
            assert("GS"@.len() != "AAPL"@.len());
            assert("GS"@.len() != "GOOG"@.len());
            assert("GS"@.len() != "MSFT"@.len());
            assert("GS"@.len() != "JPM"@.len());
            assert("GS"@.len() != "BAC"@.len());
        }
        Ticker::WFC => {
            reveal_strlit("AAPL");
            reveal_strlit("GOOG");
            reveal_strlit("MSFT");
            reveal_strlit("JPM");
            reveal_strlit("BAC");
            reveal_strlit("GS");
            reveal_strlit("WFC");
            assert("WFC"@.len() != "AAPL"@.len());
            assert("WFC"@.len() != "GOOG"@.len());
            assert("WFC"@.len() != "MSFT"@.len());
            assert("WFC"@[0] != "JPM"@[0]);
            assert("WFC"@[0] != "BAC"@[0]);
            assert("WFC"@.len() != "GS"@.len());
        }
        Ticker::MS => {
            reveal_strlit("AAPL");
            reveal_strlit("GOOG");
            reveal_strlit("MSFT");
            reveal_strlit("JPM");
            reveal_strlit("BAC");
            reveal_strlit("GS");
            reveal_strlit("WFC");
            reveal_strlit("MS");
            assert("MS"@.len() != "AAPL"@.len());
            assert("MS"@.len() != "GOOG"@.len());
            assert("MS"@.len() != "MSFT"@.len());
            assert("MS"@.len() != "JPM"@.len());
            assert("MS"@.len() != "BAC"@.len());
            assert("MS"@[0] != "GS"@[0]);
            assert("MS"@.len() != "WFC"@.len());
        }
        Ticker::AXP => {
            reveal_strlit("AAPL");
            reveal_strlit("GOOG");
            reveal_strlit("MSFT");
            reveal_strlit("JPM");
            reveal_strlit("BAC");
            reveal_strlit("GS");
            reveal_strlit("WFC");
            reveal_strlit("MS");
            reveal_strlit("AXP");
            assert("AXP"@.len() != "AAPL"@.len());
            assert("AXP"@.len() != "GOOG"@.len());
            assert("AXP"@.len() != "MSFT"@.len());
            assert("AXP"@[0] != "JPM"@[0]);
            assert("AXP"@[0] != "BAC"@[0]);
            assert("AXP"@.len() != "GS"@.len());
            assert("AXP"@[0] != "WFC"@[0]);
            assert("AXP"@.len() != "MS"@.len());
        }
        Ticker::C => {
            reveal_strlit("AAPL");
            reveal_strlit("GOOG");
            reveal_strlit("MSFT");
            reveal_strlit("JPM");
            reveal_strlit("BAC");
            reveal_strlit("GS");
            reveal_strlit("WFC");
            reveal_strlit("MS");
            reveal_strlit("AXP");
            reveal_strlit("C");
            assert("C"@.len() != "AAPL"@.len());
            assert("C"@.len() != "GOOG"@.len());
            assert("C"@.len() != "MSFT"@.len());
            assert("C"@.len() != "JPM"@.len());
            assert("C"@.len() != "BAC"@.len());
            assert("C"@.len() != "GS"@.len());
            assert("C"@.len() != "WFC"@.len());
            assert("C"@.len() != "MS"@.len());
            assert("C"@.len() != "AXP"@.len());
        }
        Ticker::DIS => {
            reveal_strlit("AAPL");
            reveal_strlit("GOOG");
            reveal_strlit("MSFT");
            reveal_strlit("JPM");
            reveal_strlit("BAC");
            reveal_strlit("GS");
            reveal_strlit("WFC");
            reveal_strlit("MS");
            reveal_strlit("AXP");
            reveal_strlit("C");
            reveal_strlit("DIS");
            assert("DIS"@.len() != "AAPL"@.len());
            assert("DIS"@.len() != "GOOG"@.len());
            assert("DIS"@.len() != "MSFT"@.len());
            assert("DIS"@[0] != "JPM"@[0]);
            assert("DIS"@[0] != "BAC"@[0]);
            assert("DIS"@.len() != "GS"@.len());
            assert("DIS"@[0] != "WFC"@[0]);
            assert("DIS"@.len() != "MS"@.len());
            assert("DIS"@[0] != "AXP"@[0]);
            assert("DIS"@.len() != "C"@.len());
        }
        Ticker::HD => {
            reveal_strlit("AAPL");
            reveal_strlit("GOOG");
            reveal_strlit("MSFT");
            reveal_strlit("JPM");
            reveal_strlit("BAC");
            reveal_strlit("GS");
            reveal_strlit("WFC");
            reveal_strlit("MS");
            reveal_strlit("AXP");
            reveal_strlit("C");
            reveal_strlit("DIS");
            reveal_strlit("HD");
            assert("HD"@.len() != "AAPL"@.len());
            assert("HD"@.len() != "GOOG"@.len());
            assert("HD"@.len() != "MSFT"@.len());
            assert("HD"@.len() != "JPM"@.len());
            assert("HD"@.len() != "BAC"@.len());
            assert("HD"@[0] != "GS"@[0]);
            assert("HD"@.len() != "WFC"@.len());
            assert("HD"@[0] != "MS"@[0]);
            assert("HD"@.len() != "AXP"@.len());
            assert("HD"@.len() != "C"@.len());
            assert("HD"@.len() != "DIS"@.len());
        }
        Ticker::WMT => {
            reveal_strlit("AAPL");
            reveal_strlit("GOOG");
            reveal_strlit("MSFT");
            reveal_strlit("JPM");
            reveal_strlit("BAC");
            reveal_strlit("GS");
            reveal_strlit("WFC");
            reveal_strlit("MS");
            reveal_strlit("AXP");
            reveal_strlit("C");
            reveal_strlit("DIS");
            reveal_strlit("HD");
            reveal_strlit("WMT");
            assert("WMT"@.len() != "AAPL"@.len());
            assert("WMT"@.len() != "GOOG"@.len());
            assert("WMT"@.len() != "MSFT"@.len());
            assert("WMT"@[0] != "JPM"@[0]);
            assert("WMT"@[0] != "BAC"@[0]);
            assert("WMT"@.len() != "GS"@.len());
            assert("WMT"@[1] != "WFC"@[1]);
            assert("WMT"@.len() != "MS"@.len());
            assert("WMT"@[0] != "AXP"@[0]);
            assert("WMT"@.len() != "C"@.len());
            assert("WMT"@[0] != "DIS"@[0]);
            assert("WMT"@.len() != "HD"@.len());
        }
        Ticker::LOW => {
            reveal_strlit("AAPL");
            reveal_strlit("GOOG");
            reveal_strlit("MSFT");
            reveal_strlit("JPM");
            reveal_strlit("BAC");
            reveal_strlit("GS");
            reveal_strlit("WFC");
            reveal_strlit("MS");
            reveal_strlit("AXP");
            reveal_strlit("C");
            reveal_strlit("DIS");
            reveal_strlit("HD");
            reveal_strlit("WMT");
            reveal_strlit("LOW");
            assert("LOW"@.len() != "AAPL"@.len());
            assert("LOW"@.len() != "GOOG"@.len());
            assert("LOW"@.len() != "MSFT"@.len());
            assert("LOW"@[0] != "JPM"@[0]);
            assert("LOW"@[0] != "BAC"@[0]);
            assert("LOW"@.len() != "GS"@.len());
            assert("LOW"@[0] != "WFC"@[0]);
            assert("LOW"@.len() != "MS"@.len());
            assert("LOW"@[0] != "AXP"@[0]);
            assert("LOW"@.len() != "C"@.len());
            assert("LOW"@[0] != "DIS"@[0]);
            assert("LOW"@.len() != "HD"@.len());
            assert("LOW"@[0] != "WMT"@[0]);
        }
        Ticker::MCD => {
            reveal_strlit("AAPL");
            reveal_strlit("GOOG");
            reveal_strlit("MSFT");
            reveal_strlit("JPM");
            reveal_strlit("BAC");
            reveal_strlit("GS");
            reveal_strlit("WFC");
            reveal_strlit("MS");
            reveal_strlit("AXP");
            reveal_strlit("C");
            reveal_strlit("DIS");
            reveal_strlit("HD");
            reveal_strlit("WMT");
            reveal_strlit("LOW");
            reveal_strlit("MCD");
            assert("MCD"@.len() != "AAPL"@.len());
            assert("MCD"@.len() != "GOOG"@.len());
            assert("MCD"@.len() != "MSFT"@.len());
            assert("MCD"@[0] != "JPM"@[0]);
            assert("MCD"@[0] != "BAC"@[0]);
            assert("MCD"@.len() != "GS"@.len());
            assert("MCD"@[0] != "WFC"@[0]);
            assert("MCD"@.len() != "MS"@.len());
            assert("MCD"@[0] != "AXP"@[0]);
            assert("MCD"@.len() != "C"@.len());
            assert("MCD"@[0] != "DIS"@[0]);
            assert("MCD"@.len() != "HD"@.len());
            assert("MCD"@[0] != "WMT"@[0]);
            assert("MCD"@[0] != "LOW"@[0]);
        }
        Ticker::PG => {
            reveal_strlit("AAPL");
            reveal_strlit("GOOG");
            reveal_strlit("MSFT");
            reveal_strlit("JPM");
            reveal_strlit("BAC");
            reveal_strlit("GS");
            reveal_strlit("WFC");
            reveal_strlit("MS");
            reveal_strlit("AXP");
            reveal_strlit("C");
            reveal_strlit("DIS");
            reveal_strlit("HD");
            reveal_strlit("WMT");
            reveal_strlit("LOW");
            reveal_strlit("MCD");
            reveal_strlit("PG");
            assert("PG"@.len() != "AAPL"@.len());
            assert("PG"@.len() != "GOOG"@.len());
            assert("PG"@.len() != "MSFT"@.len());
            assert("PG"@.len() != "JPM"@.len());
            assert("PG"@.len() != "BAC"@.len());
            assert("PG"@[0] != "GS"@[0]);
            assert("PG"@.len() != "WFC"@.len());
            assert("PG"@[0] != "MS"@[0]);
            assert("PG"@.len() != "AXP"@.len());
            assert("PG"@.len() != "C"@.len());
            assert("PG"@.len() != "DIS"@.len());
            assert("PG"@[0] != "HD"@[0]);
            assert("PG"@.len() != "WMT"@.len());
            assert("PG"@.len() != "LOW"@.len());
            assert("PG"@.len() != "MCD"@.len());
        }
        Ticker::KO => {
            reveal_strlit("AAPL");
            reveal_strlit("GOOG");
            reveal_strlit("MSFT");
            reveal_strlit("JPM");
            reveal_strlit("BAC");
            reveal_strlit("GS");
            reveal_strlit("WFC");
            reveal_strlit("MS");
            reveal_strlit("AXP");
            reveal_strlit("C");
            reveal_strlit("DIS");
            reveal_strlit("HD");
            reveal_strlit("WMT");
            reveal_strlit("LOW");
            reveal_strlit("MCD");
            reveal_strlit("PG");
            reveal_strlit("KO");
            assert("KO"@.len() != "AAPL"@.len());
            assert("KO"@.len() != "GOOG"@.len());
            assert("KO"@.len() != "MSFT"@.len());
            assert("KO"@.len() != "JPM"@.len());
            assert("KO"@.len() != "BAC"@.len());
            assert("KO"@[0] != "GS"@[0]);
            assert("KO"@.len() != "WFC"@.len());
            assert("KO"@[0] != "MS"@[0]);
            assert("KO"@.len() != "AXP"@.len());
            assert("KO"@.len() != "C"@.len());
            assert("KO"@.len() != "DIS"@.len());
            assert("KO"@[0] != "HD"@[0]);
            assert("KO"@.len() != "WMT"@.len());
            assert("KO"@.len() != "LOW"@.len());
            assert("KO"@.len() != "MCD"@.len());
            assert("KO"@[0] != "PG"@[0]);
        }
        Ticker::PEP => {
            reveal_strlit("AAPL");
            reveal_strlit("GOOG");
            reveal_strlit("MSFT");
            reveal_strlit("JPM");
            reveal_strlit("BAC");
            reveal_strlit("GS");
            reveal_strlit("WFC");
            reveal_strlit("MS");
            reveal_strlit("AXP");
            reveal_strlit("C");
            reveal_strlit("DIS");
            reveal_strlit("HD");
            reveal_strlit("WMT");
            reveal_strlit("LOW");
            reveal_strlit("MCD");
            reveal_strlit("PG");
            reveal_strlit("KO");
            reveal_strlit("PEP");
            assert("PEP"@.len() != "AAPL"@.len());
            assert("PEP"@.len() != "GOOG"@.len());
            assert("PEP"@.len() != "MSFT"@.len());
            assert("PEP"@[0] != "JPM"@[0]);
            assert("PEP"@[0] != "BAC"@[0]);
            assert("PEP"@.len() != "GS"@.len());
            assert("PEP"@[0] != "WFC"@[0]);
            assert("PEP"@.len() != "MS"@.len());
            assert("PEP"@[0] != "AXP"@[0]);
            assert("PEP"@.len() != "C"@.len());
            assert("PEP"@[0] != "DIS"@[0]);
            assert("PEP"@.len() != "HD"@.len());
            assert("PEP"@[0] != "WMT"@[0]);
            assert("PEP"@[0] != "LOW"@[0]);
            assert("PEP"@[0] != "MCD"@[0]);
            assert("PEP"@.len() != "PG"@.len());
            assert("PEP"@.len() != "KO"@.len());
        }
        Ticker::CL => {
            reveal_strlit("AAPL");
            reveal_strlit("GOOG");
            reveal_strlit("MSFT");
            reveal_strlit("JPM");
            reveal_strlit("BAC");
            reveal_strlit("GS");
            reveal_strlit("WFC");
            reveal_strlit("MS");
            reveal_strlit("AXP");
            reveal_strlit("C");
            reveal_strlit("DIS");
            reveal_strlit("HD");
            reveal_strlit("WMT");
            reveal_strlit("LOW");
            reveal_strlit("MCD");
            reveal_strlit("PG");
            reveal_strlit("KO");
            reveal_strlit("PEP");
            reveal_strlit("CL");
            assert("CL"@.len() != "AAPL"@.len());
            assert("CL"@.len() != "GOOG"@.len());
            assert("CL"@.len() != "MSFT"@.len());
            assert("CL"@.len() != "JPM"@.len());
            assert("CL"@.len() != "BAC"@.len());
            assert("CL"@[0] != "GS"@[0]);
            assert("CL"@.len() != "WFC"@.len());
            assert("CL"@[0] != "MS"@[0]);
            assert("CL"@.len() != "AXP"@.len());
            assert("CL"@.len() != "C"@.len());
            assert("CL"@.len() != "DIS"@.len());
            assert("CL"@[0] != "HD"@[0]);
            assert("CL"@.len() != "WMT"@.len());
            assert("CL"@.len() != "LOW"@.len());
            assert("CL"@.len() != "MCD"@.len());
            assert("CL"@[0] != "PG"@[0]);
            assert("CL"@[0] != "KO"@[0]);
            assert("CL"@.len() != "PEP"@.len());
        }
        Ticker::COST => {
            reveal_strlit("AAPL");
            reveal_strlit("GOOG");
            reveal_strlit("MSFT");
            reveal_strlit("JPM");
            reveal_strlit("BAC");
            reveal_strlit("GS");
            reveal_strlit("WFC");
            reveal_strlit("MS");
            reveal_strlit("AXP");
            reveal_strlit("C");
            reveal_strlit("DIS");
            reveal_strlit("HD");
            reveal_strlit("WMT");
            reveal_strlit("LOW");
            reveal_strlit("MCD");
            reveal_strlit("PG");
            reveal_strlit("KO");
            reveal_strlit("PEP");
            reveal_strlit("CL");
            reveal_strlit("COST");
            assert("COST"@[0] != "AAPL"@[0]);
            assert("COST"@[0] != "GOOG"@[0]);
            assert("COST"@[0] != "MSFT"@[0]);
            assert("COST"@.len() != "JPM"@.len());
            assert("COST"@.len() != "BAC"@.len());
            assert("COST"@.len() != "GS"@.len());
            assert("COST"@.len() != "WFC"@.len());
            assert("COST"@.len() != "MS"@.len());
            assert("COST"@.len() != "AXP"@.len());
            assert("COST"@.len() != "C"@.len());
            assert("COST"@.len() != "DIS"@.len());
            assert("COST"@.len() != "HD"@.len());
            assert("COST"@.len() != "WMT"@.len());
            assert("COST"@.len() != "LOW"@.len());
            assert("COST"@.len() != "MCD"@.len());
            assert("COST"@.len() != "PG"@.len());
            assert("COST"@.len() != "KO"@.len());
            assert("COST"@.len() != "PEP"@.len());
            assert("COST"@.len() != "CL"@.len());
        }
        Ticker::CAT => {
            reveal_strlit("AAPL");
            reveal_strlit("GOOG");
            reveal_strlit("MSFT");
            reveal_strlit("JPM");
            reveal_strlit("BAC");
            reveal_strlit("GS");
            reveal_strlit("WFC");
            reveal_strlit("MS");
            reveal_strlit("AXP");
            reveal_strlit("C");
            reveal_strlit("DIS");
            reveal_strlit("HD");
            reveal_strlit("WMT");
            reveal_strlit("LOW");
            reveal_strlit("MCD");
            reveal_strlit("PG");
            reveal_strlit("KO");
            reveal_strlit("PEP");
            reveal_strlit("CL");
            reveal_strlit("COST");
            reveal_strlit("CAT");
            assert("CAT"@.len() != "AAPL"@.len());
            assert("CAT"@.len() != "GOOG"@.len());
            assert("CAT"@.len() != "MSFT"@.len());
            assert("CAT"@[0] != "JPM"@[0]);
            assert("CAT"@[0] != "BAC"@[0]);
            assert("CAT"@.len() != "GS"@.len());
            assert("CAT"@[0] != "WFC"@[0]);
            assert("CAT"@.len() != "MS"@.len());
            assert("CAT"@[0] != "AXP"@[0]);
            assert("CAT"@.len() != "C"@.len());
            assert("CAT"@[0] != "DIS"@[0]);
            assert("CAT"@.len() != "HD"@.len());
            assert("CAT"@[0] != "WMT"@[0]);
            assert("CAT"@[0] != "LOW"@[0]);
            assert("CAT"@[0] != "MCD"@[0]);
            assert("CAT"@.len() != "PG"@.len());
            assert("CAT"@.len() != "KO"@.len());
            assert("CAT"@[0] != "PEP"@[0]);
            assert("CAT"@.len() != "CL"@.len());
            assert("CAT"@.len() != "COST"@.len());
        }
        Ticker::HON => {
            reveal_strlit("AAPL");
            reveal_strlit("GOOG");
            reveal_strlit("MSFT");
            reveal_strlit("JPM");
            reveal_strlit("BAC");
            reveal_strlit("GS");
            reveal_strlit("WFC");
            reveal_strlit("MS");
            reveal_strlit("AXP");
            reveal_strlit("C");
            reveal_strlit("DIS");
            reveal_strlit("HD");
            reveal_strlit("WMT");
            reveal_strlit("LOW");
            reveal_strlit("MCD");
            reveal_strlit("PG");
            reveal_strlit("KO");
            reveal_strlit("PEP");
            reveal_strlit("CL");
            reveal_strlit("COST");
            reveal_strlit("CAT");
            reveal_strlit("HON");
            assert("HON"@.len() != "AAPL"@.len());
            assert("HON"@.len() != "GOOG"@.len());
            assert("HON"@.len() != "MSFT"@.len());
            assert("HON"@[0] != "JPM"@[0]);
            assert("HON"@[0] != "BAC"@[0]);
            assert("HON"@.len() != "GS"@.len());
            assert("HON"@[0] != "WFC"@[0]);
            assert("HON"@.len() != "MS"@.len());
            assert("HON"@[0] != "AXP"@[0]);
            assert("HON"@.len() != "C"@.len());
            assert("HON"@[0] != "DIS"@[0]);
            assert("HON"@.len() != "HD"@.len());
            assert("HON"@[0] != "WMT"@[0]);
            assert("HON"@[0] != "LOW"@[0]);
            assert("HON"@[0] != "MCD"@[0]);
            assert("HON"@.len() != "PG"@.len());
            assert("HON"@.len() != "KO"@.len());
            assert("HON"@[0] != "PEP"@[0]);
            assert("HON"@.len() != "CL"@.len());
            assert("HON"@.len() != "COST"@.len());
            assert("HON"@[0] != "CAT"@[0]);
        }
        Ticker::DE => {
            reveal_strlit("AAPL");
            reveal_strlit("GOOG");
            reveal_strlit("MSFT");
            reveal_strlit("JPM");
            reveal_strlit("BAC");
            reveal_strlit("GS");
            reveal_strlit("WFC");
            reveal_strlit("MS");
            reveal_strlit("AXP");
            reveal_strlit("C");
            reveal_strlit("DIS");
            reveal_strlit("HD");
            reveal_strlit("WMT");
            reveal_strlit("LOW");
            reveal_strlit("MCD");
            reveal_strlit("PG");
            reveal_strlit("KO");
            reveal_strlit("PEP");
            reveal_strlit("CL");
            reveal_strlit("COST");
            reveal_strlit("CAT");
            reveal_strlit("HON");
            reveal_strlit("DE");
            assert("DE"@.len() != "AAPL"@.len());
            assert("DE"@.len() != "GOOG"@.len());
            assert("DE"@.len() != "MSFT"@.len());
            assert("DE"@.len() != "JPM"@.len());
            assert("DE"@.len() != "BAC"@.len());
            assert("DE"@[0] != "GS"@[0]);
            assert("DE"@.len() != "WFC"@.len());
            assert("DE"@[0] != "MS"@[0]);
            assert("DE"@.len() != "AXP"@.len());
            assert("DE"@.len() != "C"@.len());
            assert("DE"@.len() != "DIS"@.len());
            assert("DE"@[0] != "HD"@[0]);
            assert("DE"@.len() != "WMT"@.len());
            assert("DE"@.len() != "LOW"@.len());
            assert("DE"@.len() != "MCD"@.len());
            assert("DE"@[0] != "PG"@[0]);
            assert("DE"@[0] != "KO"@[0]);
            assert("DE"@.len() != "PEP"@.len());
            assert("DE"@[0] != "CL"@[0]);
            assert("DE"@.len() != "COST"@.len());
            assert("DE"@.len() != "CAT"@.len());
            assert("DE"@.len() != "HON"@.len());
        }
        Ticker::UNP => {
            reveal_strlit("AAPL");
            reveal_strlit("GOOG");
            reveal_strlit("MSFT");
            reveal_strlit("JPM");
            reveal_strlit("BAC");
            reveal_strlit("GS");
            reveal_strlit("WFC");
            reveal_strlit("MS");
            reveal_strlit("AXP");
            reveal_strlit("C");
            reveal_strlit("DIS");
            reveal_strlit("HD");
            reveal_strlit("WMT");
            reveal_strlit("LOW");
            reveal_strlit("MCD");
            reveal_strlit("PG");
            reveal_strlit("KO");
            reveal_strlit("PEP");
            reveal_strlit("CL");
            reveal_strlit("COST");
            reveal_strlit("CAT");
            reveal_strlit("HON");
            reveal_strlit("DE");
            reveal_strlit("UNP");
            assert("UNP"@.len() != "AAPL"@.len());
            assert("UNP"@.len() != "GOOG"@.len());
            assert("UNP"@.len() != "MSFT"@.len());
            assert("UNP"@[0] != "JPM"@[0]);
            assert("UNP"@[0] != "BAC"@[0]);
            assert("UNP"@.len() != "GS"@.len());
            assert("UNP"@[0] != "WFC"@[0]);
            assert("UNP"@.len() != "MS"@.len());
            assert("UNP"@[0] != "AXP"@[0]);
            assert("UNP"@.len() != "C"@.len());
            assert("UNP"@[0] != "DIS"@[0]);
            assert("UNP"@.len() != "HD"@.len());
            assert("UNP"@[0] != "WMT"@[0]);
            assert("UNP"@[0] != "LOW"@[0]);
            assert("UNP"@[0] != "MCD"@[0]);
            assert("UNP"@.len() != "PG"@.len());
            assert("UNP"@.len() != "KO"@.len());
            assert("UNP"@[0] != "PEP"@[0]);
            assert("UNP"@.len() != "CL"@.len());
            assert("UNP"@.len() != "COST"@.len());
            assert("UNP"@[0] != "CAT"@[0]);
            assert("UNP"@[0] != "HON"@[0]);
            assert("UNP"@.len() != "DE"@.len());
        }
        Ticker::JNJ => {
            reveal_strlit("AAPL");
            reveal_strlit("GOOG");
            reveal_strlit("MSFT");
            reveal_strlit("JPM");
            reveal_strlit("BAC");
            reveal_strlit("GS");
            reveal_strlit("WFC");
            reveal_strlit("MS");
            reveal_strlit("AXP");
            reveal_strlit("C");
            reveal_strlit("DIS");
            reveal_strlit("HD");
            reveal_strlit("WMT");
            reveal_strlit("LOW");
            reveal_strlit("MCD");
            reveal_strlit("PG");
            reveal_strlit("KO");
            reveal_strlit("PEP");
            reveal_strlit("CL");
            reveal_strlit("COST");
            reveal_strlit("CAT");
            reveal_strlit("HON");
            reveal_strlit("DE");
            reveal_strlit("UNP");
            reveal_strlit("JNJ");
            assert("JNJ"@.len() != "AAPL"@.len());
            assert("JNJ"@.len() != "GOOG"@.len());
            assert("JNJ"@.len() != "MSFT"@.len());
            assert("JNJ"@[1] != "JPM"@[1]);
            assert("JNJ"@[0] != "BAC"@[0]);
            assert("JNJ"@.len() != "GS"@.len());
            assert("JNJ"@[0] != "WFC"@[0]);
            assert("JNJ"@.len() != "MS"@.len());
            assert("JNJ"@[0] != "AXP"@[0]);
            assert("JNJ"@.len() != "C"@.len());
            assert("JNJ"@[0] != "DIS"@[0]);
            assert("JNJ"@.len() != "HD"@.len());
            assert("JNJ"@[0] != "WMT"@[0]);
            assert("JNJ"@[0] != "LOW"@[0]);
            assert("JNJ"@[0] != "MCD"@[0]);
            assert("JNJ"@.len() != "PG"@.len());
            assert("JNJ"@.len() != "KO"@.len());
            assert("JNJ"@[0] != "PEP"@[0]);
            assert("JNJ"@.len() != "CL"@.len());
            assert("JNJ"@.len() != "COST"@.len());
            assert("JNJ"@[0] != "CAT"@[0]);
            assert("JNJ"@[0] != "HON"@[0]);
            assert("JNJ"@.len() != "DE"@.len());
            assert("JNJ"@[0] != "UNP"@[0]);
        }
        Ticker::UNH => {
            reveal_strlit("AAPL");
            reveal_strlit("GOOG");
            reveal_strlit("MSFT");
            reveal_strlit("JPM");
            reveal_strlit("BAC");
            reveal_strlit("GS");
            reveal_strlit("WFC");
            reveal_strlit("MS");
            reveal_strlit("AXP");
            reveal_strlit("C");
            reveal_strlit("DIS");
            reveal_strlit("HD");
            reveal_strlit("WMT");
            reveal_strlit("LOW");
            reveal_strlit("MCD");
            reveal_strlit("PG");
            reveal_strlit("KO");
            reveal_strlit("PEP");
            reveal_strlit("CL");
            reveal_strlit("COST");
            reveal_strlit("CAT");
            reveal_strlit("HON");
            reveal_strlit("DE");
            reveal_strlit("UNP");
            reveal_strlit("JNJ");
            reveal_strlit("UNH");
            assert("UNH"@.len() != "AAPL"@.len());
            assert("UNH"@.len() != "GOOG"@.len());
            assert("UNH"@.len() != "MSFT"@.len());
            assert("UNH"@[0] != "JPM"@[0]);
            assert("UNH"@[0] != "BAC"@[0]);
            assert("UNH"@.len() != "GS"@.len());
            assert("UNH"@[0] != "WFC"@[0]);
            assert("UNH"@.len() != "MS"@.len());
            assert("UNH"@[0] != "AXP"@[0]);
            assert("UNH"@.len() != "C"@.len());
            assert("UNH"@[0] != "DIS"@[0]);
            assert("UNH"@.len() != "HD"@.len());
            assert("UNH"@[0] != "WMT"@[0]);
            assert("UNH"@[0] != "LOW"@[0]);
            assert("UNH"@[0] != "MCD"@[0]);
            assert("UNH"@.len() != "PG"@.len());
            assert("UNH"@.len() != "KO"@.len());
            assert("UNH"@[0] != "PEP"@[0]);
            assert("UNH"@.len() != "CL"@.len());
            assert("UNH"@.len() != "COST"@.len());
            assert("UNH"@[0] != "CAT"@[0]);
            assert("UNH"@[0] != "HON"@[0]);
            assert("UNH"@.len() != "DE"@.len());
            assert("UNH"@[2] != "UNP"@[2]);
            assert("UNH"@[0] != "JNJ"@[0]);
        }
        Ticker::MRK => {
            reveal_strlit("AAPL");
            reveal_strlit("GOOG");
            reveal_strlit("MSFT");
            reveal_strlit("JPM");
            reveal_strlit("BAC");
            reveal_strlit("GS");
            reveal_strlit("WFC");
            reveal_strlit("MS");
            reveal_strlit("AXP");
            reveal_strlit("C");
            reveal_strlit("DIS");
            reveal_strlit("HD");
            reveal_strlit("WMT");
            reveal_strlit("LOW");
            reveal_strlit("MCD");
            reveal_strlit("PG");
            reveal_strlit("KO");
            reveal_strlit("PEP");
            reveal_strlit("CL");
            reveal_strlit("COST");
            reveal_strlit("CAT");
            reveal_strlit("HON");
            reveal_strlit("DE");
            reveal_strlit("UNP");
            reveal_strlit("JNJ");
            reveal_strlit("UNH");
            reveal_strlit("MRK");
            assert("MRK"@.len() != "AAPL"@.len());
            assert("MRK"@.len() != "GOOG"@.len());
            assert("MRK"@.len() != "MSFT"@.len());
            assert("MRK"@[0] != "JPM"@[0]);
            assert("MRK"@[0] != "BAC"@[0]);
            assert("MRK"@.len() != "GS"@.len());
            assert("MRK"@[0] != "WFC"@[0]);
            assert("MRK"@.len() != "MS"@.len());
            assert("MRK"@[0] != "AXP"@[0]);
            assert("MRK"@.len() != "C"@.len());
            assert("MRK"@[0] != "DIS"@[0]);
            assert("MRK"@.len() != "HD"@.len());
            assert("MRK"@[0] != "WMT"@[0]);
            assert("MRK"@[0] != "LOW"@[0]);
            assert("MRK"@[1] != "MCD"@[1]);
            assert("MRK"@.len() != "PG"@.len());
            assert("MRK"@.len() != "KO"@.len());
            assert("MRK"@[0] != "PEP"@[0]);
            assert("MRK"@.len() != "CL"@.len());
            assert("MRK"@.len() != "COST"@.len());
            assert("MRK"@[0] != "CAT"@[0]);
            assert("MRK"@[0] != "HON"@[0]);
            assert("MRK"@.len() != "DE"@.len());
            assert("MRK"@[0] != "UNP"@[0]);
            assert("MRK"@[0] != "JNJ"@[0]);
            assert("MRK"@[0] != "UNH"@[0]);
        }
        Ticker::PFE => {
            reveal_strlit("AAPL");
            reveal_strlit("GOOG");
            reveal_strlit("MSFT");
            reveal_strlit("JPM");
            reveal_strlit("BAC");
            reveal_strlit("GS");
            reveal_strlit("WFC");
            reveal_strlit("MS");
            reveal_strlit("AXP");
            reveal_strlit("C");
            reveal_strlit("DIS");
            reveal_strlit("HD");
            reveal_strlit("WMT");
            reveal_strlit("LOW");
            reveal_strlit("MCD");
            reveal_strlit("PG");
            reveal_strlit("KO");
            reveal_strlit("PEP");
            reveal_strlit("CL");
            reveal_strlit("COST");
            reveal_strlit("CAT");
            reveal_strlit("HON");
            reveal_strlit("DE");
            reveal_strlit("UNP");
            reveal_strlit("JNJ");
            reveal_strlit("UNH");
            reveal_strlit("MRK");
            reveal_strlit("PFE");
            assert("PFE"@.len() != "AAPL"@.len());
            assert("PFE"@.len() != "GOOG"@.len());
            assert("PFE"@.len() != "MSFT"@.len());
            assert("PFE"@[0] != "JPM"@[0]);
            assert("PFE"@[0] != "BAC"@[0]);
            assert("PFE"@.len() != "GS"@.len());
            assert("PFE"@[0] != "WFC"@[0]);
            assert("PFE"@.len() != "MS"@.len());
            assert("PFE"@[0] != "AXP"@[0]);
            assert("PFE"@.len() != "C"@.len());
            assert("PFE"@[0] != "DIS"@[0]);
            assert("PFE"@.len() != "HD"@.len());
            assert("PFE"@[0] != "WMT"@[0]);
            assert("PFE"@[0] != "LOW"@[0]);
            assert("PFE"@[0] != "MCD"@[0]);
            assert("PFE"@.len() != "PG"@.len());
            assert("PFE"@.len() != "KO"@.len());
            assert("PFE"@[1] != "PEP"@[1]);
            assert("PFE"@.len() != "CL"@.len());
            assert("PFE"@.len() != "COST"@.len());
            assert("PFE"@[0] != "CAT"@[0]);
            assert("PFE"@[0] != "HON"@[0]);
            assert("PFE"@.len() != "DE"@.len());
            assert("PFE"@[0] != "UNP"@[0]);
            assert("PFE"@[0] != "JNJ"@[0]);
            assert("PFE"@[0] != "UNH"@[0]);
            assert("PFE"@[0] != "MRK"@[0]);
        }
        Ticker::LLY => {
            reveal_strlit("AAPL");
            reveal_strlit("GOOG");
            reveal_strlit("MSFT");
            reveal_strlit("JPM");
            reveal_strlit("BAC");
            reveal_strlit("GS");
            reveal_strlit("WFC");
            reveal_strlit("MS");
            reveal_strlit("AXP");
            reveal_strlit("C");
            reveal_strlit("DIS");
            reveal_strlit("HD");
            reveal_strlit("WMT");
            reveal_strlit("LOW");
            reveal_strlit("MCD");
            reveal_strlit("PG");
            reveal_strlit("KO");
            reveal_strlit("PEP");
            reveal_strlit("CL");
            reveal_strlit("COST");
            reveal_strlit("CAT");
            reveal_strlit("HON");
            reveal_strlit("DE");
            reveal_strlit("UNP");
            reveal_strlit("JNJ");
            reveal_strlit("UNH");
            reveal_strlit("MRK");
            reveal_strlit("PFE");
            reveal_strlit("LLY");
            assert("LLY"@.len() != "AAPL"@.len());
            assert("LLY"@.len() != "GOOG"@.len());
            assert("LLY"@.len() != "MSFT"@.len());
            assert("LLY"@[0] != "JPM"@[0]);
            assert("LLY"@[0] != "BAC"@[0]);
            assert("LLY"@.len() != "GS"@.len());
            assert("LLY"@[0] != "WFC"@[0]);
            assert("LLY"@.len() != "MS"@.len());
            assert("LLY"@[0] != "AXP"@[0]);
            assert("LLY"@.len() != "C"@.len());
            assert("LLY"@[0] != "DIS"@[0]);
            assert("LLY"@.len() != "HD"@.len());
            assert("LLY"@[0] != "WMT"@[0]);
            assert("LLY"@[1] != "LOW"@[1]);
            assert("LLY"@[0] != "MCD"@[0]);
            assert("LLY"@.len() != "PG"@.len());
            assert("LLY"@.len() != "KO"@.len());
            assert("LLY"@[0] != "PEP"@[0]);
            assert("LLY"@.len() != "CL"@.len());
            assert("LLY"@.len() != "COST"@.len());
            assert("LLY"@[0] != "CAT"@[0]);
            assert("LLY"@[0] != "HON"@[0]);
            assert("LLY"@.len() != "DE"@.len());
            assert("LLY"@[0] != "UNP"@[0]);
            assert("LLY"@[0] != "JNJ"@[0]);
            assert("LLY"@[0] != "UNH"@[0]);
            assert("LLY"@[0] != "MRK"@[0]);
            assert("LLY"@[0] != "PFE"@[0]);
        }
        Ticker::ABBV => {
            reveal_strlit("AAPL");
            reveal_strlit("GOOG");
            reveal_strlit("MSFT");
            reveal_strlit("JPM");
            reveal_strlit("BAC");
            reveal_strlit("GS");
            reveal_strlit("WFC");
            reveal_strlit("MS");
            reveal_strlit("AXP");
            reveal_strlit("C");
            reveal_strlit("DIS");
            reveal_strlit("HD");
            reveal_strlit("WMT");
            reveal_strlit("LOW");
            reveal_strlit("MCD");
            reveal_strlit("PG");
            reveal_strlit("KO");
            reveal_strlit("PEP");
            reveal_strlit("CL");
            reveal_strlit("COST");
            reveal_strlit("CAT");
            reveal_strlit("HON");
            reveal_strlit("DE");
            reveal_strlit("UNP");
            reveal_strlit("JNJ");
            reveal_strlit("UNH");
            reveal_strlit("MRK");
            reveal_strlit("PFE");
            reveal_strlit("LLY");
            reveal_strlit("ABBV");
            assert("ABBV"@[1] != "AAPL"@[1]);
            assert("ABBV"@[0] != "GOOG"@[0]);
            assert("ABBV"@[0] != "MSFT"@[0]);
            assert("ABBV"@.len() != "JPM"@.len());
            assert("ABBV"@.len() != "BAC"@.len());
            assert("ABBV"@.len() != "GS"@.len());
            assert("ABBV"@.len() != "WFC"@.len());
            assert("ABBV"@.len() != "MS"@.len());
            assert("ABBV"@.len() != "AXP"@.len());
            assert("ABBV"@.len() != "C"@.len());
            assert("ABBV"@.len() != "DIS"@.len());
            assert("ABBV"@.len() != "HD"@.len());
            assert("ABBV"@.len() != "WMT"@.len());
            assert("ABBV"@.len() != "LOW"@.len());
            assert("ABBV"@.len() != "MCD"@.len());
            assert("ABBV"@.len() != "PG"@.len());
            assert("ABBV"@.len() != "KO"@.len());
            assert("ABBV"@.len() != "PEP"@.len());
            assert("ABBV"@.len() != "CL"@.len());
            assert("ABBV"@[0] != "COST"@[0]);
            assert("ABBV"@.len() != "CAT"@.len());
            assert("ABBV"@.len() != "HON"@.len());
            assert("ABBV"@.len() != "DE"@.len());
            assert("ABBV"@.len() != "UNP"@.len());
            assert("ABBV"@.len() != "JNJ"@.len());
            assert("ABBV"@.len() != "UNH"@.len());
            assert("ABBV"@.len() != "MRK"@.len());
            assert("ABBV"@.len() != "PFE"@.len());
            assert("ABBV"@.len() != "LLY"@.len());
        }
        Ticker::V => {
            reveal_strlit("AAPL");
            reveal_strlit("GOOG");
            reveal_strlit("MSFT");
            reveal_strlit("JPM");
            reveal_strlit("BAC");
            reveal_strlit("GS");
            reveal_strlit("WFC");
            reveal_strlit("MS");
            reveal_strlit("AXP");
            reveal_strlit("C");
            reveal_strlit("DIS");
            reveal_strlit("HD");
            reveal_strlit("WMT");
            reveal_strlit("LOW");
            reveal_strlit("MCD");
            reveal_strlit("PG");
            reveal_strlit("KO");
            reveal_strlit("PEP");
            reveal_strlit("CL");
            reveal_strlit("COST");
            reveal_strlit("CAT");
            reveal_strlit("HON");
            reveal_strlit("DE");
            reveal_strlit("UNP");
            reveal_strlit("JNJ");
            reveal_strlit("UNH");
            reveal_strlit("MRK");
            reveal_strlit("PFE");
            reveal_strlit("LLY");
            reveal_strlit("ABBV");
            reveal_strlit("V");
            assert("V"@.len() != "AAPL"@.len());
            assert("V"@.len() != "GOOG"@.len());
            assert("V"@.len() != "MSFT"@.len());
            assert("V"@.len() != "JPM"@.len());
            assert("V"@.len() != "BAC"@.len());
            assert("V"@.len() != "GS"@.len());
            assert("V"@.len() != "WFC"@.len());
            assert("V"@.len() != "MS"@.len());
            assert("V"@.len() != "AXP"@.len());
            assert("V"@[0] != "C"@[0]);
            assert("V"@.len() != "DIS"@.len());
            assert("V"@.len() != "HD"@.len());
            assert("V"@.len() != "WMT"@.len());
            assert("V"@.len() != "LOW"@.len());
            assert("V"@.len() != "MCD"@.len());
            assert("V"@.len() != "PG"@.len());
            assert("V"@.len() != "KO"@.len());
            assert("V"@.len() != "PEP"@.len());
            assert("V"@.len() != "CL"@.len());
            assert("V"@.len() != "COST"@.len());
            assert("V"@.len() != "CAT"@.len());
            assert("V"@.len() != "HON"@.len());
            assert("V"@.len() != "DE"@.len());
            assert("V"@.len() != "UNP"@.len());
            assert("V"@.len() != "JNJ"@.len());
            assert("V"@.len() != "UNH"@.len());
            assert("V"@.len() != "MRK"@.len());
            assert("V"@.len() != "PFE"@.len());
            assert("V"@.len() != "LLY"@.len());
            assert("V"@.len() != "ABBV"@.len());
        }
        Ticker::MA => {
            reveal_strlit("AAPL");
            reveal_strlit("GOOG");
            reveal_strlit("MSFT");
            reveal_strlit("JPM");
            reveal_strlit("BAC");
            reveal_strlit("GS");
            reveal_strlit("WFC");
            reveal_strlit("MS");
            reveal_strlit("AXP");
            reveal_strlit("C");
            reveal_strlit("DIS");
            reveal_strlit("HD");
            reveal_strlit("WMT");
            reveal_strlit("LOW");
            reveal_strlit("MCD");
            reveal_strlit("PG");
            reveal_strlit("KO");
            reveal_strlit("PEP");
            reveal_strlit("CL");
            reveal_strlit("COST");
            reveal_strlit("CAT");
            reveal_strlit("HON");
            reveal_strlit("DE");
            reveal_strlit("UNP");
            reveal_strlit("JNJ");
            reveal_strlit("UNH");
            reveal_strlit("MRK");
            reveal_strlit("PFE");
            reveal_strlit("LLY");
            reveal_strlit("ABBV");
            reveal_strlit("V");
            reveal_strlit("MA");
            assert("MA"@.len() != "AAPL"@.len());
            assert("MA"@.len() != "GOOG"@.len());
            assert("MA"@.len() != "MSFT"@.len());
            assert("MA"@.len() != "JPM"@.len());
            assert("MA"@.len() != "BAC"@.len());
            assert("MA"@[0] != "GS"@[0]);
            assert("MA"@.len() != "WFC"@.len());
            assert("MA"@[1] != "MS"@[1]);
            assert("MA"@.len() != "AXP"@.len());
            assert("MA"@.len() != "C"@.len());
            assert("MA"@.len() != "DIS"@.len());
            assert("MA"@[0] != "HD"@[0]);
            assert("MA"@.len() != "WMT"@.len());
            assert("MA"@.len() != "LOW"@.len());
            assert("MA"@.len() != "MCD"@.len());
            assert("MA"@[0] != "PG"@[0]);
            assert("MA"@[0] != "KO"@[0]);
            assert("MA"@.len() != "PEP"@.len());
            assert("MA"@[0] != "CL"@[0]);
            assert("MA"@.len() != "COST"@.len());
            assert("MA"@.len() != "CAT"@.len());
            assert("MA"@.len() != "HON"@.len());
            assert("MA"@[0] != "DE"@[0]);
            assert("MA"@.len() != "UNP"@.len());
            assert("MA"@.len() != "JNJ"@.len());
            assert("MA"@.len() != "UNH"@.len());
            assert("MA"@.len() != "MRK"@.len());
            assert("MA"@.len() != "PFE"@.len());
            assert("MA"@.len() != "LLY"@.len());
            assert("MA"@.len() != "ABBV"@.len());
            assert("MA"@.len() != "V"@.len());
        }
        Ticker::XOM => {
            reveal_strlit("AAPL");
            reveal_strlit("GOOG");
            reveal_strlit("MSFT");
            reveal_strlit("JPM");
            reveal_strlit("BAC");
            reveal_strlit("GS");
            reveal_strlit("WFC");
            reveal_strlit("MS");
            reveal_strlit("AXP");
            reveal_strlit("C");
            reveal_strlit("DIS");
            reveal_strlit("HD");
            reveal_strlit("WMT");
            reveal_strlit("LOW");
            reveal_strlit("MCD");
            reveal_strlit("PG");
            reveal_strlit("KO");
            reveal_strlit("PEP");
            reveal_strlit("CL");
            reveal_strlit("COST");
            reveal_strlit("CAT");
            reveal_strlit("HON");
            reveal_strlit("DE");
            reveal_strlit("UNP");
            reveal_strlit("JNJ");
            reveal_strlit("UNH");
            reveal_strlit("MRK");
            reveal_strlit("PFE");
            reveal_strlit("LLY");
            reveal_strlit("ABBV");
            reveal_strlit("V");
            reveal_strlit("MA");
            reveal_strlit("XOM");
            assert("XOM"@.len() != "AAPL"@.len());
            assert("XOM"@.len() != "GOOG"@.len());
            assert("XOM"@.len() != "MSFT"@.len());
            assert("XOM"@[0] != "JPM"@[0]);
            assert("XOM"@[0] != "BAC"@[0]);
            assert("XOM"@.len() != "GS"@.len());
            assert("XOM"@[0] != "WFC"@[0]);
            assert("XOM"@.len() != "MS"@.len());
            assert("XOM"@[0] != "AXP"@[0]);
            assert("XOM"@.len() != "C"@.len());
            assert("XOM"@[0] != "DIS"@[0]);
            assert("XOM"@.len() != "HD"@.len());
            assert("XOM"@[0] != "WMT"@[0]);
            assert("XOM"@[0] != "LOW"@[0]);
            assert("XOM"@[0] != "MCD"@[0]);
            assert("XOM"@.len() != "PG"@.len());
            assert("XOM"@.len() != "KO"@.len());
            assert("XOM"@[0] != "PEP"@[0]);
            assert("XOM"@.len() != "CL"@.len());
            assert("XOM"@.len() != "COST"@.len());
            assert("XOM"@[0] != "CAT"@[0]);
            assert("XOM"@[0] != "HON"@[0]);
            assert("XOM"@.len() != "DE"@.len());
            assert("XOM"@[0] != "UNP"@[0]);
            assert("XOM"@[0] != "JNJ"@[0]);
            assert("XOM"@[0] != "UNH"@[0]);
            assert("XOM"@[0] != "MRK"@[0]);
            assert("XOM"@[0] != "PFE"@[0]);
            assert("XOM"@[0] != "LLY"@[0]);
            assert("XOM"@.len() != "ABBV"@.len());
            assert("XOM"@.len() != "V"@.len());
            assert("XOM"@.len() != "MA"@.len());
        }
        Ticker::CVX => {
            reveal_strlit("AAPL");
            reveal_strlit("GOOG");
            reveal_strlit("MSFT");
            reveal_strlit("JPM");
            reveal_strlit("BAC");
            reveal_strlit("GS");
            reveal_strlit("WFC");
            reveal_strlit("MS");
            reveal_strlit("AXP");
            reveal_strlit("C");
            reveal_strlit("DIS");
            reveal_strlit("HD");
            reveal_strlit("WMT");
            reveal_strlit("LOW");
            reveal_strlit("MCD");
            reveal_strlit("PG");
            reveal_strlit("KO");
            reveal_strlit("PEP");
            reveal_strlit("CL");
            reveal_strlit("COST");
            reveal_strlit("CAT");
            reveal_strlit("HON");
            reveal_strlit("DE");
            reveal_strlit("UNP");
            reveal_strlit("JNJ");
            reveal_strlit("UNH");
            reveal_strlit("MRK");
            reveal_strlit("PFE");
            reveal_strlit("LLY");
            reveal_strlit("ABBV");
            reveal_strlit("V");
            reveal_strlit("MA");
            reveal_strlit("XOM");
            reveal_strlit("CVX");
            assert("CVX"@.len() != "AAPL"@.len());
            assert("CVX"@.len() != "GOOG"@.len());
            assert("CVX"@.len() != "MSFT"@.len());
            assert("CVX"@[0] != "JPM"@[0]);
            assert("CVX"@[0] != "BAC"@[0]);
            assert("CVX"@.len() != "GS"@.len());
            assert("CVX"@[0] != "WFC"@[0]);
            assert("CVX"@.len() != "MS"@.len());
            assert("CVX"@[0] != "AXP"@[0]);
            assert("CVX"@.len() != "C"@.len());
            assert("CVX"@[0] != "DIS"@[0]);
            assert("CVX"@.len() != "HD"@.len());
            assert("CVX"@[0] != "WMT"@[0]);
            assert("CVX"@[0] != "LOW"@[0]);
            assert("CVX"@[0] != "MCD"@[0]);
            assert("CVX"@.len() != "PG"@.len());
            assert("CVX"@.len() != "KO"@.len());
            assert("CVX"@[0] != "PEP"@[0]);
            assert("CVX"@.len() != "CL"@.len());
            assert("CVX"@.len() != "COST"@.len());
            assert("CVX"@[1] != "CAT"@[1]);
            assert("CVX"@[0] != "HON"@[0]);
            assert("CVX"@.len() != "DE"@.len());
            assert("CVX"@[0] != "UNP"@[0]);
            assert("CVX"@[0] != "JNJ"@[0]);
            assert("CVX"@[0] != "UNH"@[0]);
            assert("CVX"@[0] != "MRK"@[0]);
            assert("CVX"@[0] != "PFE"@[0]);
            assert("CVX"@[0] != "LLY"@[0]);
            assert("CVX"@.len() != "ABBV"@.len());
            assert("CVX"@.len() != "V"@.len());
            assert("CVX"@.len() != "MA"@.len());
            assert("CVX"@[0] != "XOM"@[0]);
        }
        Ticker::CCJ => {
            reveal_strlit("AAPL");
            reveal_strlit("GOOG");
            reveal_strlit("MSFT");
            reveal_strlit("JPM");
            reveal_strlit("BAC");
            reveal_strlit("GS");
            reveal_strlit("WFC");
            reveal_strlit("MS");
            reveal_strlit("AXP");
            reveal_strlit("C");
            reveal_strlit("DIS");
            reveal_strlit("HD");
            reveal_strlit("WMT");
            reveal_strlit("LOW");
            reveal_strlit("MCD");
            reveal_strlit("PG");
            reveal_strlit("KO");
            reveal_strlit("PEP");
            reveal_strlit("CL");
            reveal_strlit("COST");
            reveal_strlit("CAT");
            reveal_strlit("HON");
            reveal_strlit("DE");
            reveal_strlit("UNP");
            reveal_strlit("JNJ");
            reveal_strlit("UNH");
            reveal_strlit("MRK");
            reveal_strlit("PFE");
            reveal_strlit("LLY");
            reveal_strlit("ABBV");
            reveal_strlit("V");
            reveal_strlit("MA");
            reveal_strlit("XOM");
            reveal_strlit("CVX");
            reveal_strlit("CCJ");
            assert("CCJ"@.len() != "AAPL"@.len());
            assert("CCJ"@.len() != "GOOG"@.len());
            assert("CCJ"@.len() != "MSFT"@.len());
            assert("CCJ"@[0] != "JPM"@[0]);
            assert("CCJ"@[0] != "BAC"@[0]);
            assert("CCJ"@.len() != "GS"@.len());
            assert("CCJ"@[0] != "WFC"@[0]);
            assert("CCJ"@.len() != "MS"@.len());
            assert("CCJ"@[0] != "AXP"@[0]);
            assert("CCJ"@.len() != "C"@.len());
            assert("CCJ"@[0] != "DIS"@[0]);
            assert("CCJ"@.len() != "HD"@.len());
            assert("CCJ"@[0] != "WMT"@[0]);
            assert("CCJ"@[0] != "LOW"@[0]);
            assert("CCJ"@[0] != "MCD"@[0]);
            assert("CCJ"@.len() != "PG"@.len());
            assert("CCJ"@.len() != "KO"@.len());
            assert("CCJ"@[0] != "PEP"@[0]);
            assert("CCJ"@.len() != "CL"@.len());
            assert("CCJ"@.len() != "COST"@.len());
            assert("CCJ"@[1] != "CAT"@[1]);
            assert("CCJ"@[0] != "HON"@[0]);
            assert("CCJ"@.len() != "DE"@.len());
            assert("CCJ"@[0] != "UNP"@[0]);
            assert("CCJ"@[0] != "JNJ"@[0]);
            assert("CCJ"@[0] != "UNH"@[0]);
            assert("CCJ"@[0] != "MRK"@[0]);
            assert("CCJ"@[0] != "PFE"@[0]);
            assert("CCJ"@[0] != "LLY"@[0]);
            assert("CCJ"@.len() != "ABBV"@.len());
            assert("CCJ"@.len() != "V"@.len());
            assert("CCJ"@.len() != "MA"@.len());
            assert("CCJ"@[0] != "XOM"@[0]);
            assert("CCJ"@[1] != "CVX"@[1]);
        }
        Ticker::NRG => {
            reveal_strlit("AAPL");
            reveal_strlit("GOOG");
            reveal_strlit("MSFT");
            reveal_strlit("JPM");
            reveal_strlit("BAC");
            reveal_strlit("GS");
            reveal_strlit("WFC");
            reveal_strlit("MS");
            reveal_strlit("AXP");
            reveal_strlit("C");
            reveal_strlit("DIS");
            reveal_strlit("HD");
            reveal_strlit("WMT");
            reveal_strlit("LOW");
            reveal_strlit("MCD");
            reveal_strlit("PG");
            reveal_strlit("KO");
            reveal_strlit("PEP");
            reveal_strlit("CL");
            reveal_strlit("COST");
            reveal_strlit("CAT");
            reveal_strlit("HON");
            reveal_strlit("DE");
            reveal_strlit("UNP");
            reveal_strlit("JNJ");
            reveal_strlit("UNH");
            reveal_strlit("MRK");
            reveal_strlit("PFE");
            reveal_strlit("LLY");
            reveal_strlit("ABBV");
            reveal_strlit("V");
            reveal_strlit("MA");
            reveal_strlit("XOM");
            reveal_strlit("CVX");
            reveal_strlit("CCJ");
            reveal_strlit("NRG");
            assert("NRG"@.len() != "AAPL"@.len());
            assert("NRG"@.len() != "GOOG"@.len());
            assert("NRG"@.len() != "MSFT"@.len());
            assert("NRG"@[0] != "JPM"@[0]);
            assert("NRG"@[0] != "BAC"@[0]);
            assert("NRG"@.len() != "GS"@.len());
            assert("NRG"@[0] != "WFC"@[0]);
            assert("NRG"@.len() != "MS"@.len());
            assert("NRG"@[0] != "AXP"@[0]);
            assert("NRG"@.len() != "C"@.len());
            assert("NRG"@[0] != "DIS"@[0]);
            assert("NRG"@.len() != "HD"@.len());
            assert("NRG"@[0] != "WMT"@[0]);
            assert("NRG"@[0] != "LOW"@[0]);
            assert("NRG"@[0] != "MCD"@[0]);
            assert("NRG"@.len() != "PG"@.len());
            assert("NRG"@.len() != "KO"@.len());
            assert("NRG"@[0] != "PEP"@[0]);
            assert("NRG"@.len() != "CL"@.len());
            assert("NRG"@.len() != "COST"@.len());
            assert("NRG"@[0] != "CAT"@[0]);
            assert("NRG"@[0] != "HON"@[0]);
            assert("NRG"@.len() != "DE"@.len());
            assert("NRG"@[0] != "UNP"@[0]);
            assert("NRG"@[0] != "JNJ"@[0]);
            assert("NRG"@[0] != "UNH"@[0]);
            assert("NRG"@[0] != "MRK"@[0]);
            assert("NRG"@[0] != "PFE"@[0]);
            assert("NRG"@[0] != "LLY"@[0]);
            assert("NRG"@.len() != "ABBV"@.len());
            assert("NRG"@.len() != "V"@.len());
            assert("NRG"@.len() != "MA"@.len());
            assert("NRG"@[0] != "XOM"@[0]);
            assert("NRG"@[0] != "CVX"@[0]);
            assert("NRG"@[0] != "CCJ"@[0]);
        }
        Ticker::SO => {
            reveal_strlit("AAPL");
            reveal_strlit("GOOG");
            reveal_strlit("MSFT");
            reveal_strlit("JPM");
            reveal_strlit("BAC");
            reveal_strlit("GS");
            reveal_strlit("WFC");
            reveal_strlit("MS");
            reveal_strlit("AXP");
            reveal_strlit("C");
            reveal_strlit("DIS");
            reveal_strlit("HD");
            reveal_strlit("WMT");
            reveal_strlit("LOW");
            reveal_strlit("MCD");
            reveal_strlit("PG");
            reveal_strlit("KO");
            reveal_strlit("PEP");
            reveal_strlit("CL");
            reveal_strlit("COST");
            reveal_strlit("CAT");
            reveal_strlit("HON");
            reveal_strlit("DE");
            reveal_strlit("UNP");
            reveal_strlit("JNJ");
            reveal_strlit("UNH");
            reveal_strlit("MRK");
            reveal_strlit("PFE");
            reveal_strlit("LLY");
            reveal_strlit("ABBV");
            reveal_strlit("V");
            reveal_strlit("MA");
            reveal_strlit("XOM");
            reveal_strlit("CVX");
            reveal_strlit("CCJ");
            reveal_strlit("NRG");
            reveal_strlit("SO");
            assert("SO"@.len() != "AAPL"@.len());
            assert("SO"@.len() != "GOOG"@.len());
            assert("SO"@.len() != "MSFT"@.len());
            assert("SO"@.len() != "JPM"@.len());
            assert("SO"@.len() != "BAC"@.len());
            assert("SO"@[0] != "GS"@[0]);
            assert("SO"@.len() != "WFC"@.len());
            assert("SO"@[0] != "MS"@[0]);
            assert("SO"@.len() != "AXP"@.len());
            assert("SO"@.len() != "C"@.len());
            assert("SO"@.len() != "DIS"@.len());
            assert("SO"@[0] != "HD"@[0]);
            assert("SO"@.len() != "WMT"@.len());
            assert("SO"@.len() != "LOW"@.len());
            assert("SO"@.len() != "MCD"@.len());
            assert("SO"@[0] != "PG"@[0]);
            assert("SO"@[0] != "KO"@[0]);
            assert("SO"@.len() != "PEP"@.len());
            assert("SO"@[0] != "CL"@[0]);
            assert("SO"@.len() != "COST"@.len());
            assert("SO"@.len() != "CAT"@.len());
            assert("SO"@.len() != "HON"@.len());
            assert("SO"@[0] != "DE"@[0]);
            assert("SO"@.len() != "UNP"@.len());
            assert("SO"@.len() != "JNJ"@.len());
            assert("SO"@.len() != "UNH"@.len());
            assert("SO"@.len() != "MRK"@.len());
            assert("SO"@.len() != "PFE"@.len());
            assert("SO"@.len() != "LLY"@.len());
            assert("SO"@.len() != "ABBV"@.len());
            assert("SO"@.len() != "V"@.len());
            assert("SO"@[0] != "MA"@[0]);
            assert("SO"@.len() != "XOM"@.len());
            assert("SO"@.len() != "CVX"@.len());
            assert("SO"@.len() != "CCJ"@.len());
            assert("SO"@.len() != "NRG"@.len());
        }
        Ticker::NEE => {
            reveal_strlit("AAPL");
            reveal_strlit("GOOG");
            reveal_strlit("MSFT");
            reveal_strlit("JPM");
            reveal_strlit("BAC");
            reveal_strlit("GS");
            reveal_strlit("WFC");
            reveal_strlit("MS");
            reveal_strlit("AXP");
            reveal_strlit("C");
            reveal_strlit("DIS");
            reveal_strlit("HD");
            reveal_strlit("WMT");
            reveal_strlit("LOW");
            reveal_strlit("MCD");
            reveal_strlit("PG");
            reveal_strlit("KO");
            reveal_strlit("PEP");
            reveal_strlit("CL");
            reveal_strlit("COST");
            reveal_strlit("CAT");
            reveal_strlit("HON");
            reveal_strlit("DE");
            reveal_strlit("UNP");
            reveal_strlit("JNJ");
            reveal_strlit("UNH");
            reveal_strlit("MRK");
            reveal_strlit("PFE");
            reveal_strlit("LLY");
            reveal_strlit("ABBV");
            reveal_strlit("V");
            reveal_strlit("MA");
            reveal_strlit("XOM");
            reveal_strlit("CVX");
            reveal_strlit("CCJ");
            reveal_strlit("NRG");
            reveal_strlit("SO");
            reveal_strlit("NEE");
            assert("NEE"@.len() != "AAPL"@.len());
            assert("NEE"@.len() != "GOOG"@.len());
            assert("NEE"@.len() != "MSFT"@.len());
            assert("NEE"@[0] != "JPM"@[0]);
            assert("NEE"@[0] != "BAC"@[0]);
            assert("NEE"@.len() != "GS"@.len());
            assert("NEE"@[0] != "WFC"@[0]);
            assert("NEE"@.len() != "MS"@.len());
            assert("NEE"@[0] != "AXP"@[0]);
            assert("NEE"@.len() != "C"@.len());
            assert("NEE"@[0] != "DIS"@[0]);
            assert("NEE"@.len() != "HD"@.len());
            assert("NEE"@[0] != "WMT"@[0]);
            assert("NEE"@[0] != "LOW"@[0]);
            assert("NEE"@[0] != "MCD"@[0]);
            assert("NEE"@.len() != "PG"@.len());
            assert("NEE"@.len() != "KO"@.len());
            assert("NEE"@[0] != "PEP"@[0]);
            assert("NEE"@.len() != "CL"@.len());
            assert("NEE"@.len() != "COST"@.len());
            assert("NEE"@[0] != "CAT"@[0]);
            assert("NEE"@[0] != "HON"@[0]);
            assert("NEE"@.len() != "DE"@.len());
            assert("NEE"@[0] != "UNP"@[0]);
            assert("NEE"@[0] != "JNJ"@[0]);
            assert("NEE"@[0] != "UNH"@[0]);
            assert("NEE"@[0] != "MRK"@[0]);
            assert("NEE"@[0] != "PFE"@[0]);
            assert("NEE"@[0] != "LLY"@[0]);
            assert("NEE"@.len() != "ABBV"@.len());
            assert("NEE"@.len() != "V"@.len());
            assert("NEE"@.len() != "MA"@.len());
            assert("NEE"@[0] != "XOM"@[0]);
            assert("NEE"@[0] != "CVX"@[0]);
            assert("NEE"@[0] != "CCJ"@[0]);
            assert("NEE"@[1] != "NRG"@[1]);
            assert("NEE"@.len() != "SO"@.len());
        }
        Ticker::DUK => {
            reveal_strlit("AAPL");
            reveal_strlit("GOOG");
            reveal_strlit("MSFT");
            reveal_strlit("JPM");
            reveal_strlit("BAC");
            reveal_strlit("GS");
            reveal_strlit("WFC");
            reveal_strlit("MS");
            reveal_strlit("AXP");
            reveal_strlit("C");
            reveal_strlit("DIS");
            reveal_strlit("HD");
            reveal_strlit("WMT");
            reveal_strlit("LOW");
            reveal_strlit("MCD");
            reveal_strlit("PG");
            reveal_strlit("KO");
            reveal_strlit("PEP");
            reveal_strlit("CL");
            reveal_strlit("COST");
            reveal_strlit("CAT");
            reveal_strlit("HON");
            reveal_strlit("DE");
            reveal_strlit("UNP");
            reveal_strlit("JNJ");
            reveal_strlit("UNH");
            reveal_strlit("MRK");
            reveal_strlit("PFE");
            reveal_strlit("LLY");
            reveal_strlit("ABBV");
            reveal_strlit("V");
            reveal_strlit("MA");
            reveal_strlit("XOM");
            reveal_strlit("CVX");
            reveal_strlit("CCJ");
            reveal_strlit("NRG");
            reveal_strlit("SO");
            reveal_strlit("NEE");
            reveal_strlit("DUK");
            assert("DUK"@.len() != "AAPL"@.len());
            assert("DUK"@.len() != "GOOG"@.len());
            assert("DUK"@.len() != "MSFT"@.len());
            assert("DUK"@[0] != "JPM"@[0]);
            assert("DUK"@[0] != "BAC"@[0]);
            assert("DUK"@.len() != "GS"@.len());
            assert("DUK"@[0] != "WFC"@[0]);
            assert("DUK"@.len() != "MS"@.len());
            assert("DUK"@[0] != "AXP"@[0]);
            assert("DUK"@.len() != "C"@.len());
            assert("DUK"@[1] != "DIS"@[1]);
            assert("DUK"@.len() != "HD"@.len());
            assert("DUK"@[0] != "WMT"@[0]);
            assert("DUK"@[0] != "LOW"@[0]);
            assert("DUK"@[0] != "MCD"@[0]);
            assert("DUK"@.len() != "PG"@.len());
            assert("DUK"@.len() != "KO"@.len());
            assert("DUK"@[0] != "PEP"@[0]);
            assert("DUK"@.len() != "CL"@.len());
            assert("DUK"@.len() != "COST"@.len());
            assert("DUK"@[0] != "CAT"@[0]);
            assert("DUK"@[0] != "HON"@[0]);
            assert("DUK"@.len() != "DE"@.len());
            assert("DUK"@[0] != "UNP"@[0]);
            assert("DUK"@[0] != "JNJ"@[0]);
            assert("DUK"@[0] != "UNH"@[0]);
            assert("DUK"@[0] != "MRK"@[0]);
            assert("DUK"@[0] != "PFE"@[0]);
            assert("DUK"@[0] != "LLY"@[0]);
            assert("DUK"@.len() != "ABBV"@.len());
            assert("DUK"@.len() != "V"@.len());
            assert("DUK"@.len() != "MA"@.len());
            assert("DUK"@[0] != "XOM"@[0]);
            assert("DUK"@[0] != "CVX"@[0]);
            assert("DUK"@[0] != "CCJ"@[0]);
            assert("DUK"@[0] != "NRG"@[0]);
            assert("DUK"@.len() != "SO"@.len());
            assert("DUK"@[0] != "NEE"@[0]);
        }
    }
}

/// A symbol is read as a ticker only when it is exactly that ticker's text.
pub proof fn law_name_exact(s: Seq<char>, t: Ticker)
    requires
        ticker_from_name(s) == Some(t),
    ensures
        s == ticker_name(t),
{
}

/// Distinct tickers have distinct symbols.
pub proof fn law_name_injective(a: Ticker, b: Ticker)
    requires
        ticker_name(a) == ticker_name(b),
    ensures
        a == b,
{
    law_name_roundtrip(a);
    law_name_roundtrip(b);
}

/// The catalogue lists every ticker.
pub proof fn law_all_lists_every_ticker(t: Ticker)
    ensures
        Ticker::ALL@.contains(t),
{
    match t {
        Ticker::AAPL => assert(Ticker::ALL@[0] == t),
        Ticker::GOOG => assert(Ticker::ALL@[1] == t),
        Ticker::MSFT => assert(Ticker::ALL@[2] == t),
        Ticker::JPM => assert(Ticker::ALL@[3] == t),
        Ticker::BAC => assert(Ticker::ALL@[4] == t),
        Ticker::GS => assert(Ticker::ALL@[5] == t),
        Ticker::WFC => assert(Ticker::ALL@[6] == t),
        Ticker::MS => assert(Ticker::ALL@[7] == t),
        Ticker::AXP => assert(Ticker::ALL@[8] == t),
        Ticker::C => assert(Ticker::ALL@[9] == t),
        Ticker::DIS => assert(Ticker::ALL@[10] == t),
        Ticker::HD => assert(Ticker::ALL@[11] == t),
        Ticker::WMT => assert(Ticker::ALL@[12] == t),
        Ticker::LOW => assert(Ticker::ALL@[13] == t),
        Ticker::MCD => assert(Ticker::ALL@[14] == t),
        Ticker::PG => assert(Ticker::ALL@[15] == t),
        Ticker::KO => assert(Ticker::ALL@[16] == t),
        Ticker::PEP => assert(Ticker::ALL@[17] == t),
        Ticker::CL => assert(Ticker::ALL@[18] == t),
        Ticker::COST => assert(Ticker::ALL@[19] == t),
        Ticker::CAT => assert(Ticker::ALL@[20] == t),
        Ticker::HON => assert(Ticker::ALL@[21] == t),
        Ticker::DE => assert(Ticker::ALL@[22] == t),
        Ticker::UNP => assert(Ticker::ALL@[23] == t),
        Ticker::JNJ => assert(Ticker::ALL@[24] == t),
        Ticker::UNH => assert(Ticker::ALL@[25] == t),
        Ticker::MRK => assert(Ticker::ALL@[26] == t),
        Ticker::PFE => assert(Ticker::ALL@[27] == t),
        Ticker::LLY => assert(Ticker::ALL@[28] == t),
        Ticker::ABBV => assert(Ticker::ALL@[29] == t),
        Ticker::V => assert(Ticker::ALL@[30] == t),
        Ticker::MA => assert(Ticker::ALL@[31] == t),
        Ticker::XOM => assert(Ticker::ALL@[32] == t),
        Ticker::CVX => assert(Ticker::ALL@[33] == t),
        Ticker::CCJ => assert(Ticker::ALL@[34] == t),
        Ticker::NRG => assert(Ticker::ALL@[35] == t),
        Ticker::SO => assert(Ticker::ALL@[36] == t),
        Ticker::NEE => assert(Ticker::ALL@[37] == t),
        Ticker::DUK => assert(Ticker::ALL@[38] == t),
    }
}

/// Every default-traded ticker is in the catalogue.
pub proof fn law_strategy_subset_of_all(t: Ticker)
    requires
        Ticker::STRATEGY@.contains(t),
    ensures
        Ticker::ALL@.contains(t),
{
    law_all_lists_every_ticker(t);
}

/// The tickers named by the first `n` comma-separated parts (each trimmed),
/// or the first part that names none.
pub open spec fn tickers_of_parts(parts: Seq<Seq<char>>, n: int) -> Result<Seq<Ticker>, Seq<char>>
    decreases n,
{
    if n <= 0 {
        Ok(Seq::empty())
    } else {
        match tickers_of_parts(parts, n - 1) {
            Err(e) => Err(e),
            Ok(v) => match ticker_from_name(trimmed(parts[n - 1])) {
                Some(t) => Ok(v.push(t)),
                None => Err(trimmed(parts[n - 1])),
            },
        }
    }
}

/// Once a part names no ticker, later parts do not change the outcome.
proof fn lemma_parts_error_sticks(parts: Seq<Seq<char>>, m: int, n: int)
    requires
        0 <= m <= n,
        tickers_of_parts(parts, m) is Err,
    ensures
        tickers_of_parts(parts, n) == tickers_of_parts(parts, m),
    decreases n - m,
{
    if n > m {
        lemma_parts_error_sticks(parts, m, n - 1);
    }
}

/// Tickers of a comma-separated list such as `"AAPL, MSFT"`; the first part
/// that names no known ticker (trimmed) is the error.
pub fn parse_ticker_list(list: &str) -> (r: Result<Vec<Ticker>, String>)
    ensures
        match tickers_of_parts(split_commas(list@), split_commas(list@).len() as int) {
            Ok(v) => r matches Ok(w) && w@ == v,
            Err(e) => r matches Err(x) && x@ == e,
        },
{
    let parts = split_on_commas(list);
    let ghost ps = texts(parts@);
    let mut out: Vec<Ticker> = Vec::new();
    let mut i: usize = 0;
    while i < parts.len()
        invariant
            i <= parts@.len(),
            ps == texts(parts@),
            ps == split_commas(list@),
            tickers_of_parts(ps, i as int) == Ok::<Seq<Ticker>, Seq<char>>(out@),
        decreases parts.len() - i,
    {
        let part = trim_text(parts[i].as_str());
        proof {
            assert(ps[i as int] == parts@[i as int]@);
        }
        match Ticker::from_str_opt(part.as_str()) {
            Some(t) => {
                out.push(t);
            },
            None => {
                proof {
                    lemma_parts_error_sticks(ps, i + 1, ps.len() as int);
                }
                return Err(part);
            },
        }
        i = i + 1;
    }
    Ok(out)
}

} // verus!
