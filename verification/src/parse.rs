//! The UCI protocol parser: one engine output line in, one typed event out.
//!
//! Decoding is a pure function of the line. Known commands (`uciok`,
//! `readyok`, `info`, `option`) are decoded by scanning for keyword tokens;
//! any other leading token makes the line unrecognized, which is not an
//! error. A known ambiguity is carried from the wire format: option and
//! combo-choice names with embedded whitespace cannot be told apart from the
//! next keyword by a token scanner, so they are not handled.

use crate::text::{isize_of_str, parse_isize, tokenize, tokens_of};
use vstd::prelude::*;

verus! {

/// Supported UCI commands.
#[derive(Debug, PartialEq, Clone)]
pub enum UCI {
    /// Sent after the `uci` command.
    UciOk,
    /// Sent after the `isready` command.
    ReadyOk,
    /// Engine sending evaluation info; every field is optional per line.
    Info {
        cp: Option<isize>,
        mate: Option<isize>,
        depth: Option<isize>,
        seldepth: Option<isize>,
        nodes: Option<isize>,
        time: Option<isize>,
        multipv: Option<isize>,
        pv: Option<Vec<String>>,
    },
    /// An engine option advertisement.
    Option { name: String, opt_type: OptionType },
    /// A line whose leading token is no known command; silently ignorable.
    Unrecognized,
}

/// Possible types for engine options.
#[derive(Debug, PartialEq, Clone)]
pub enum OptionType {
    Check { default: bool },
    Spin { default: isize, min: isize, max: isize },
    Combo { default: String, options: Vec<String> },
    Button,
    String { default: String },
}

/// Errors produced from UCI parsing: a line that matched a known command but
/// had a required field missing or malformed.
#[derive(Debug, PartialEq, Eq, Structural, Clone, Copy)]
pub enum UCIError {
    ParseError,
}

impl UCIError {
    /// A short description of the error.
    pub fn message(&self) -> (r: &'static str)
        ensures
            r@ == "error parsing uci command"@,
    {
        "error parsing uci command"
    }
}

/// Mathematical form of an [`OptionType`].
pub enum OptionTypeModel {
    Check { default: bool },
    Spin { default: int, min: int, max: int },
    Combo { default: Seq<char>, options: Seq<Seq<char>> },
    Button,
    String { default: Seq<char> },
}

/// Mathematical form of a [`UCI`] event.
pub enum UciModel {
    UciOk,
    ReadyOk,
    Info {
        cp: Option<int>,
        mate: Option<int>,
        depth: Option<int>,
        seldepth: Option<int>,
        nodes: Option<int>,
        time: Option<int>,
        multipv: Option<int>,
        pv: Option<Seq<Seq<char>>>,
    },
    Option { name: Seq<char>, opt_type: OptionTypeModel },
    Unrecognized,
}

pub open spec fn opt_int(o: Option<isize>) -> Option<int> {
    match o {
        Some(v) => Some(v as int),
        None => None,
    }
}

pub open spec fn opt_str(o: Option<String>) -> Option<Seq<char>> {
    match o {
        Some(s) => Some(s@),
        None => None,
    }
}

pub open spec fn opt_strs(o: Option<Vec<String>>) -> Option<Seq<Seq<char>>> {
    match o {
        Some(v) => Some(v.deep_view()),
        None => None,
    }
}

impl View for OptionType {
    type V = OptionTypeModel;

    open spec fn view(&self) -> OptionTypeModel {
        match self {
            OptionType::Check { default } => OptionTypeModel::Check { default: *default },
            OptionType::Spin { default, min, max } => OptionTypeModel::Spin {
                default: *default as int,
                min: *min as int,
                max: *max as int,
            },
            OptionType::Combo { default, options } => OptionTypeModel::Combo {
                default: default@,
                options: options.deep_view(),
            },
            OptionType::Button => OptionTypeModel::Button,
            OptionType::String { default } => OptionTypeModel::String { default: default@ },
        }
    }
}

impl View for UCI {
    type V = UciModel;

    open spec fn view(&self) -> UciModel {
        match self {
            UCI::UciOk => UciModel::UciOk,
            UCI::ReadyOk => UciModel::ReadyOk,
            UCI::Info { cp, mate, depth, seldepth, nodes, time, multipv, pv } => UciModel::Info {
                cp: opt_int(*cp),
                mate: opt_int(*mate),
                depth: opt_int(*depth),
                seldepth: opt_int(*seldepth),
                nodes: opt_int(*nodes),
                time: opt_int(*time),
                multipv: opt_int(*multipv),
                pv: opt_strs(*pv),
            },
            UCI::Option { name, opt_type } => UciModel::Option {
                name: name@,
                opt_type: opt_type@,
            },
            UCI::Unrecognized => UciModel::Unrecognized,
        }
    }
}

/// The string value following `word`: the token right after the first
/// occurrence of the keyword. An absent keyword reads as absent, and so
/// does a keyword that ends the line: it announces a value it never gives.
pub open spec fn scan_str(toks: Seq<Seq<char>>, word: Seq<char>) -> Option<Seq<char>> {
    match toks.index_of_first(word) {
        Some(i) => if i + 1 < toks.len() {
            Some(toks[i + 1])
        } else {
            None
        },
        None => None,
    }
}

/// The integer value following `word`: a value that is no integer reads as
/// absent, like a missing one.
pub open spec fn scan_int(toks: Seq<Seq<char>>, word: Seq<char>) -> Option<int> {
    match scan_str(toks, word) {
        Some(t) => isize_of_str(t),
        None => None,
    }
}

/// The boolean value following `word`: exactly `true` or `false`; anything
/// else reads as absent.
pub open spec fn scan_bool(toks: Seq<Seq<char>>, word: Seq<char>) -> Option<bool> {
    match scan_str(toks, word) {
        Some(t) => if t == "true"@ {
            Some(true)
        } else if t == "false"@ {
            Some(false)
        } else {
            None
        },
        None => None,
    }
}

/// The principal variation: every token after the first `pv` token, in
/// order. No `pv` token means the field is absent, which is distinct from a
/// `pv` token followed by zero moves.
pub open spec fn pv_of(toks: Seq<Seq<char>>) -> Option<Seq<Seq<char>>> {
    match toks.index_of_first("pv"@) {
        Some(i) => Some(toks.skip(i + 1)),
        None => None,
    }
}

/// Decoding an `info` line never fails: each known keyword is read if
/// present and well formed, and is absent otherwise.
pub open spec fn info_of(toks: Seq<Seq<char>>) -> UciModel {
    UciModel::Info {
        cp: scan_int(toks, "cp"@),
        mate: scan_int(toks, "mate"@),
        depth: scan_int(toks, "depth"@),
        seldepth: scan_int(toks, "seldepth"@),
        nodes: scan_int(toks, "nodes"@),
        time: scan_int(toks, "time"@),
        multipv: scan_int(toks, "multipv"@),
        pv: pv_of(toks),
    }
}

/// Every token that immediately follows a `var` token, in order. A trailing
/// `var` contributes nothing here; [`opt_type_of`] rejects that line.
pub open spec fn vars_of(toks: Seq<Seq<char>>) -> Seq<Seq<char>>
    decreases toks.len(),
{
    if toks.len() == 0 {
        Seq::empty()
    } else if toks[0] == "var"@ && toks.len() > 1 {
        seq![toks[1]] + vars_of(toks.drop_first())
    } else {
        vars_of(toks.drop_first())
    }
}

/// The option type named `ty`, with its parameters read from the line's
/// tokens. A missing or malformed required parameter, an unknown type name,
/// or a trailing `var` in a combo is a hard parse error.
pub open spec fn opt_type_of(ty: Seq<char>, toks: Seq<Seq<char>>) -> Result<
    OptionTypeModel,
    UCIError,
> {
    if ty == "check"@ {
        match scan_bool(toks, "default"@) {
            Some(d) => Ok(OptionTypeModel::Check { default: d }),
            None => Err(UCIError::ParseError),
        }
    } else if ty == "spin"@ {
        match (scan_int(toks, "default"@), scan_int(toks, "min"@), scan_int(toks, "max"@)) {
            (Some(d), Some(mn), Some(mx)) => Ok(
                OptionTypeModel::Spin { default: d, min: mn, max: mx },
            ),
            _ => Err(UCIError::ParseError),
        }
    } else if ty == "combo"@ {
        match scan_str(toks, "default"@) {
            Some(d) => if toks.len() > 0 && toks.last() == "var"@ {
                Err(UCIError::ParseError)
            } else {
                Ok(OptionTypeModel::Combo { default: d, options: vars_of(toks) })
            },
            None => Err(UCIError::ParseError),
        }
    } else if ty == "button"@ {
        Ok(OptionTypeModel::Button)
    } else if ty == "string"@ {
        match scan_str(toks, "default"@) {
            Some(d) => Ok(OptionTypeModel::String { default: d }),
            None => Err(UCIError::ParseError),
        }
    } else {
        Err(UCIError::ParseError)
    }
}

/// Decoding an `option` line requires both a name and a type.
pub open spec fn option_of(toks: Seq<Seq<char>>) -> Result<UciModel, UCIError> {
    match (scan_str(toks, "name"@), scan_str(toks, "type"@)) {
        (Some(name), Some(ty)) => match opt_type_of(ty, toks) {
            Ok(ot) => Ok(UciModel::Option { name: name, opt_type: ot }),
            Err(e) => Err(e),
        },
        _ => Err(UCIError::ParseError),
    }
}

/// What one line of engine output means: dispatch on the first token.
pub open spec fn decode_uci(line: Seq<char>) -> Result<UciModel, UCIError> {
    let toks = tokens_of(line);
    if toks.len() == 0 {
        Ok(UciModel::Unrecognized)
    } else if toks[0] == "uciok"@ {
        Ok(UciModel::UciOk)
    } else if toks[0] == "readyok"@ {
        Ok(UciModel::ReadyOk)
    } else if toks[0] == "info"@ {
        Ok(info_of(toks))
    } else if toks[0] == "option"@ {
        option_of(toks)
    } else {
        Ok(UciModel::Unrecognized)
    }
}

/// A decoded event beside its model, for stating parser contracts.
pub open spec fn uci_result_view(r: Result<UCI, UCIError>) -> Result<UciModel, UCIError> {
    match r {
        Ok(u) => Ok(u@),
        Err(e) => Err(e),
    }
}

pub open spec fn opt_type_result_view(r: Result<OptionType, UCIError>) -> Result<
    OptionTypeModel,
    UCIError,
> {
    match r {
        Ok(t) => Ok(t@),
        Err(e) => Err(e),
    }
}

/// The five option-type keywords name five different types.
proof fn lemma_type_keywords_distinct()
    ensures
        "check"@ != "spin"@,
        "check"@ != "combo"@,
        "check"@ != "button"@,
        "check"@ != "string"@,
        "spin"@ != "combo"@,
        "spin"@ != "button"@,
        "spin"@ != "string"@,
        "combo"@ != "button"@,
        "combo"@ != "string"@,
        "button"@ != "string"@,
{
    reveal_strlit("check");
    reveal_strlit("spin");
    reveal_strlit("combo");
    reveal_strlit("button");
    reveal_strlit("string");
    assert("check"@.len() == 5);
    assert("spin"@.len() == 4);
    assert("combo"@.len() == 5);
    assert("button"@.len() == 6);
    assert("string"@.len() == 6);
    assert("check"@[1] == 'h' && "combo"@[1] == 'o');
    assert("button"@[0] == 'b' && "string"@[0] == 's');
}

/// Whether `s` reads as `w`.
fn string_is(s: &String, w: &str) -> (r: bool)
    ensures
        r == (s@ == w@),
{
    let wo = String::from_str(w);
    *s == wo
}

/// Index of the first token equal to `word`, if any.
fn find_token(toks: &Vec<String>, word: &str) -> (r: Option<usize>)
    ensures
        match r {
            Some(i) => i < toks.len() && toks.deep_view().index_of_first(word@) == Some(
                i as int,
            ),
            None => toks.deep_view().index_of_first(word@) is None,
        },
{
    let w = String::from_str(word);
    let n = toks.len();
    let mut i: usize = 0;
    while i < n
        invariant
            i <= n == toks.len(),
            w@ == word@,
            forall|j: int| 0 <= j < i ==> toks.deep_view()[j] != word@,
        decreases n - i,
    {
        if toks[i] == w {
            proof {
                assert(toks.deep_view()[i as int] == word@);
                toks.deep_view().index_of_first_ensures(word@);
            }
            return Some(i);
        }
        proof {
            assert(toks.deep_view()[i as int] == toks@[i as int]@);
        }
        i = i + 1;
    }
    proof {
        toks.deep_view().index_of_first_ensures(word@);
    }
    None
}

/// The integer value following `word` among the tokens, read by the
/// keyword-then-next-token scan.
pub fn parse_line_value_int(toks: &Vec<String>, word: &str) -> (r: Option<isize>)
    ensures
        opt_int(r) == scan_int(toks.deep_view(), word@),
{
    match find_token(toks, word) {
        None => None,
        Some(i) => {
            if i + 1 < toks.len() {
                parse_isize(toks[i + 1].as_str())
            } else {
                None
            }
        },
    }
}

/// The string value following `word` among the tokens.
pub fn parse_line_value_str(toks: &Vec<String>, word: &str) -> (r: Option<String>)
    ensures
        opt_str(r) == scan_str(toks.deep_view(), word@),
{
    match find_token(toks, word) {
        None => None,
        Some(i) => {
            if i + 1 < toks.len() {
                Some(toks[i + 1].clone())
            } else {
                None
            }
        },
    }
}

/// The boolean value following `word` among the tokens.
pub fn parse_line_value_bool(toks: &Vec<String>, word: &str) -> (r: Option<bool>)
    ensures
        r == scan_bool(toks.deep_view(), word@),
{
    match find_token(toks, word) {
        None => None,
        Some(i) => {
            if i + 1 < toks.len() {
                let t = &toks[i + 1];
                if string_is(t, "true") {
                    Some(true)
                } else if string_is(t, "false") {
                    Some(false)
                } else {
                    None
                }
            } else {
                None
            }
        },
    }
}

/// Parse an info line and return all the moves stated after `pv`.
pub fn parse_pv(line: String) -> (r: Option<Vec<String>>)
    ensures
        opt_strs(r) == pv_of(tokens_of(line@)),
{
    let toks = tokenize(line.as_str());
    match find_token(&toks, "pv") {
        None => None,
        Some(i) => {
            let n = toks.len();
            let mut moves: Vec<String> = Vec::new();
            let mut j = i + 1;
            proof {
                assert(moves.deep_view() =~= toks.deep_view().subrange(
                    i + 1 as int,
                    j as int,
                ));
            }
            while j < n
                invariant
                    i < j <= n == toks.len(),
                    moves.deep_view() =~= toks.deep_view().subrange(i + 1 as int, j as int),
                decreases n - j,
            {
                let ghost prev = moves.deep_view();
                moves.push(toks[j].clone());
                proof {
                    assert(moves.deep_view() =~= prev.push(toks.deep_view()[j as int]));
                    assert(moves.deep_view() =~= toks.deep_view().subrange(
                        i + 1 as int,
                        j + 1 as int,
                    ));
                }
                j = j + 1;
            }
            proof {
                assert(moves.deep_view() =~= toks.deep_view().skip(i + 1 as int));
            }
            Some(moves)
        },
    }
}

/// Parse an info line for all supported metadata; this never fails.
pub fn parse_info_line(line: String) -> (r: Result<UCI, UCIError>)
    ensures
        r is Ok,
        uci_result_view(r) == Ok::<UciModel, UCIError>(info_of(tokens_of(line@))),
{
    let toks = tokenize(line.as_str());
    let cp = parse_line_value_int(&toks, "cp");
    let mate = parse_line_value_int(&toks, "mate");
    let depth = parse_line_value_int(&toks, "depth");
    let seldepth = parse_line_value_int(&toks, "seldepth");
    let nodes = parse_line_value_int(&toks, "nodes");
    let time = parse_line_value_int(&toks, "time");
    let multipv = parse_line_value_int(&toks, "multipv");
    let pv = parse_pv(line);
    Ok(UCI::Info { cp, mate, depth, seldepth, nodes, time, multipv, pv })
}

impl OptionType {
    /// Construct the option type named `opt_type` from the line's tokens.
    pub fn new(opt_type: String, line: String) -> (r: Result<Self, UCIError>)
        ensures
            opt_type_result_view(r) == opt_type_of(opt_type@, tokens_of(line@)),
    {
        if string_is(&opt_type, "check") {
            Self::new_check(line)
        } else if string_is(&opt_type, "spin") {
            Self::new_spin(line)
        } else if string_is(&opt_type, "combo") {
            Self::new_combo(line)
        } else if string_is(&opt_type, "button") {
            Self::new_button()
        } else if string_is(&opt_type, "string") {
            Self::new_string(line)
        } else {
            Err(UCIError::ParseError)
        }
    }

    /// A boolean option with its default.
    pub fn new_check(line: String) -> (r: Result<Self, UCIError>)
        ensures
            opt_type_result_view(r) == opt_type_of("check"@, tokens_of(line@)),
    {
        let toks = tokenize(line.as_str());
        match parse_line_value_bool(&toks, "default") {
            Some(default) => Ok(OptionType::Check { default }),
            None => Err(UCIError::ParseError),
        }
    }

    /// An integer option with default, minimum and maximum.
    pub fn new_spin(line: String) -> (r: Result<Self, UCIError>)
        ensures
            opt_type_result_view(r) == opt_type_of("spin"@, tokens_of(line@)),
    {
        proof {
            lemma_type_keywords_distinct();
        }
        let toks = tokenize(line.as_str());
        let default = match parse_line_value_int(&toks, "default") {
            Some(v) => v,
            None => {
                return Err(UCIError::ParseError);
            },
        };
        let min = match parse_line_value_int(&toks, "min") {
            Some(v) => v,
            None => {
                return Err(UCIError::ParseError);
            },
        };
        let max = match parse_line_value_int(&toks, "max") {
            Some(v) => v,
            None => {
                return Err(UCIError::ParseError);
            },
        };
        Ok(OptionType::Spin { default, min, max })
    }

    /// An enumerated option: its default and each choice named after a
    /// `var` token.
    pub fn new_combo(line: String) -> (r: Result<Self, UCIError>)
        ensures
            opt_type_result_view(r) == opt_type_of("combo"@, tokens_of(line@)),
    {
        proof {
            lemma_type_keywords_distinct();
        }
        let toks = tokenize(line.as_str());
        let default = match parse_line_value_str(&toks, "default") {
            Some(v) => v,
            None => {
                return Err(UCIError::ParseError);
            },
        };
        let n = toks.len();
        let mut options: Vec<String> = Vec::new();
        let mut ix: usize = 0;
        proof {
            assert(toks.deep_view().skip(0) =~= toks.deep_view());
            assert(options.deep_view() =~= Seq::<Seq<char>>::empty());
            assert(Seq::<Seq<char>>::empty() + vars_of(toks.deep_view()) =~= vars_of(
                toks.deep_view(),
            ));
        }
        while ix < n
            invariant
                ix <= n == toks.len(),
                toks.deep_view().len() == n,
                toks.deep_view() == tokens_of(line@),
                scan_str(tokens_of(line@), "default"@) == Some(default@),
                forall|k: int| 0 <= k < ix ==> !(toks.deep_view()[k] == "var"@ && k == n - 1),
                options.deep_view() + vars_of(toks.deep_view().skip(ix as int)) =~= vars_of(
                    toks.deep_view(),
                ),
            decreases n - ix,
        {
            let ghost dv = toks.deep_view();
            proof {
                assert(dv.skip(ix as int).drop_first() =~= dv.skip(ix + 1 as int));
                assert(dv.skip(ix as int)[0] == dv[ix as int]);
            }
            if string_is(&toks[ix], "var") {
                if ix + 1 < n {
                    let ghost prev = options.deep_view();
                    options.push(toks[ix + 1].clone());
                    proof {
                        assert(dv.skip(ix as int)[1] == dv[ix + 1 as int]);
                        assert(options.deep_view() =~= prev.push(dv[ix + 1 as int]));
                        assert(prev.push(dv[ix + 1 as int]) + vars_of(dv.skip(ix + 1 as int))
                            =~= prev + (seq![dv[ix + 1 as int]] + vars_of(
                            dv.skip(ix + 1 as int),
                        )));
                    }
                } else {
                    // The line ends in `var`: the choice it announces is
                    // missing, a hard parse error.
                    proof {
                        lemma_type_keywords_distinct();
                        assert(dv.last() == "var"@);
                    }
                    return Err(UCIError::ParseError);
                }
            }
            ix = ix + 1;
        }
        proof {
            assert(vars_of(toks.deep_view().skip(n as int)) =~= Seq::<Seq<char>>::empty());
            assert(options.deep_view() =~= vars_of(toks.deep_view()));
            if toks.deep_view().len() > 0 {
                assert(!(toks.deep_view().last() == "var"@));
            }
        }
        Ok(OptionType::Combo { default, options })
    }

    /// A trigger option, with no value.
    pub fn new_button() -> (r: Result<Self, UCIError>)
        ensures
            opt_type_result_view(r) == opt_type_of("button"@, Seq::empty()),
    {
        proof {
            lemma_type_keywords_distinct();
        }
        Ok(OptionType::Button)
    }

    /// A free-form string option with its default.
    pub fn new_string(line: String) -> (r: Result<Self, UCIError>)
        ensures
            opt_type_result_view(r) == opt_type_of("string"@, tokens_of(line@)),
    {
        proof {
            lemma_type_keywords_distinct();
        }
        let toks = tokenize(line.as_str());
        match parse_line_value_str(&toks, "default") {
            Some(default) => Ok(OptionType::String { default }),
            None => Err(UCIError::ParseError),
        }
    }
}

/// Parse an option advertisement line.
pub fn parse_option_line(line: String) -> (r: Result<UCI, UCIError>)
    ensures
        uci_result_view(r) == option_of(tokens_of(line@)),
{
    let toks = tokenize(line.as_str());
    let name = match parse_line_value_str(&toks, "name") {
        Some(v) => v,
        None => {
            return Err(UCIError::ParseError);
        },
    };
    let ty = match parse_line_value_str(&toks, "type") {
        Some(v) => v,
        None => {
            return Err(UCIError::ParseError);
        },
    };
    match OptionType::new(ty, line) {
        Ok(opt_type) => Ok(UCI::Option { name, opt_type }),
        Err(e) => Err(e),
    }
}

/// Parse one line of engine output. An unknown leading token yields
/// [`UCI::Unrecognized`], never a hard failure; a malformed known command
/// yields [`UCIError::ParseError`].
pub fn parse_uci(line: String) -> (r: Result<UCI, UCIError>)
    ensures
        uci_result_view(r) == decode_uci(line@),
{
    let toks = tokenize(line.as_str());
    if toks.len() == 0 {
        return Ok(UCI::Unrecognized);
    }
    if string_is(&toks[0], "uciok") {
        Ok(UCI::UciOk)
    } else if string_is(&toks[0], "readyok") {
        Ok(UCI::ReadyOk)
    } else if string_is(&toks[0], "info") {
        parse_info_line(line)
    } else if string_is(&toks[0], "option") {
        parse_option_line(line)
    } else {
        Ok(UCI::Unrecognized)
    }
}

/// Decoding is a pure function of the line: decoding an equal line again
/// yields an equal event.
pub proof fn lemma_decode_deterministic(a: Seq<char>, b: Seq<char>)
    requires
        a == b,
    ensures
        decode_uci(a) == decode_uci(b),
{
}

/// An absent `pv` token leaves the principal variation absent, while a
/// `pv` token with zero moves after it yields the empty sequence: the two
/// cases are distinguishable.
pub proof fn lemma_pv_absent_vs_empty(toks: Seq<Seq<char>>)
    ensures
        (pv_of(toks) is None) <==> !toks.contains("pv"@),
        toks.len() > 0 && toks[toks.len() - 1] == "pv"@ && (forall|j: int|
            0 <= j < toks.len() - 1 ==> toks[j] != "pv"@) ==> pv_of(toks) == Some(
            Seq::<Seq<char>>::empty(),
        ),
{
    toks.index_of_first_ensures("pv"@);
    if toks.len() > 0 && toks[toks.len() - 1] == "pv"@ && (forall|j: int|
        0 <= j < toks.len() - 1 ==> toks[j] != "pv"@) {
        assert(toks.contains("pv"@));
        assert(toks.index_of_first("pv"@) == Some(toks.len() - 1));
        assert(toks.skip(toks.len() as int) =~= Seq::<Seq<char>>::empty());
    }
}

} // verus!
