//! The override layer and the entry point: each raw token is reclassified
//! against the embedder configuration (disabled symbols and custom
//! keywords) before it reaches the consumer, and `lex` wires the raw
//! tokenizer over a list of text fragments.

use crate::chars::str_eq;
use crate::error::{LexError, LexErrorModel};
use crate::model::{spec_next, TokenizeState};
use crate::position::Position;
use crate::scanner::get_next_token;
use crate::settings::LexConfig;
use crate::stream::{remaining_from, InputStream, MultiInputsStream};
use crate::token::{
    is_valid_identifier, spec_is_keyword, spec_is_next_unary, spec_is_operator,
    spec_is_valid_identifier, spec_lookup, spec_syntax, Token, TokenModel,
};
use vstd::prelude::*;
use vstd::string::StringExecFns;

verus! {

/// Is the text the canonical spelling of a standard keyword?
pub open spec fn spec_is_keyword_spelling(s: Seq<char>) -> bool {
    match spec_lookup(s) {
        Some(t) => spec_is_keyword(t),
        None => false,
    }
}

/// The configuration contract the override layer relies on: when both a
/// disabled-symbol set and a custom-keyword table are given, a standard
/// keyword registered as custom must also be disabled (an active keyword
/// that is simultaneously custom is a configuration error).
pub open spec fn spec_config_wf(
    disabled: Option<Set<Seq<char>>>,
    custom: Option<Map<Seq<char>, u8>>,
) -> bool {
    match (disabled, custom) {
        (Some(d), Some(m)) => forall|s: Seq<char>|
            spec_is_keyword_spelling(s) && m.contains_key(s) ==> d.contains(s),
        _ => true,
    }
}

/// Whether the spelling is registered as a custom keyword.
pub open spec fn spec_is_custom(s: Seq<char>, custom: Option<Map<Seq<char>, u8>>) -> bool {
    match custom {
        Some(m) => m.contains_key(s),
        None => false,
    }
}

/// Whether the spelling is in the disabled-symbol set.
pub open spec fn spec_is_disabled(s: Seq<char>, disabled: Option<Set<Seq<char>>>) -> bool {
    match disabled {
        Some(d) => d.contains(s),
        None => false,
    }
}

/// What the override layer turns a raw token into, in strict priority
/// order: a reserved symbol is diagnosed (confusable sequences), promoted
/// to a custom keyword, or refused when disabled or not identifier-shaped;
/// an identifier registered as custom becomes a custom keyword; a disabled
/// keyword registered as custom becomes a custom keyword; a disabled
/// operator becomes a hard error; a disabled keyword is softly demoted to
/// a reserved symbol; everything else passes through unchanged.
pub open spec fn spec_override(
    t: TokenModel,
    disabled: Option<Set<Seq<char>>>,
    custom: Option<Map<Seq<char>, u8>>,
) -> TokenModel {
    match t {
        TokenModel::Reserved(s) => {
            let cust = spec_is_custom(s, custom);
            if s == "==="@ && !cust {
                TokenModel::LexError(LexErrorModel::ImproperSymbol(
                    "'===' is not a valid operator. This is not JavaScript! Should it be '=='?"@,
                ))
            } else if s == "!=="@ && !cust {
                TokenModel::LexError(LexErrorModel::ImproperSymbol(
                    "'!==' is not a valid operator. This is not JavaScript! Should it be '!='?"@,
                ))
            } else if s == "->"@ && !cust {
                TokenModel::LexError(LexErrorModel::ImproperSymbol(
                    "'->' is not a valid symbol. This is not C or C++!"@,
                ))
            } else if s == "<-"@ && !cust {
                TokenModel::LexError(LexErrorModel::ImproperSymbol(
                    "'<-' is not a valid symbol. This is not Go! Should it be '<='?"@,
                ))
            } else if s == "=>"@ && !cust {
                TokenModel::LexError(LexErrorModel::ImproperSymbol(
                    "'=>' is not a valid symbol. This is not Rust! Should it be '>='?"@,
                ))
            } else if s == ":="@ && !cust {
                TokenModel::LexError(LexErrorModel::ImproperSymbol(
                    "':=' is not a valid assignment operator. This is not Go! Should it be simply '='?"@,
                ))
            } else if s == "::<"@ && !cust {
                TokenModel::LexError(LexErrorModel::ImproperSymbol(
                    "'::<>' is not a valid symbol. This is not Rust! Should it be '::'?"@,
                ))
            } else if (s == "(*"@ || s == "*)"@) && !cust {
                TokenModel::LexError(LexErrorModel::ImproperSymbol(
                    "'(* .. *)' is not a valid comment format. This is not Pascal! Should it be '/* .. */'?"@,
                ))
            } else if s == "#"@ && !cust {
                TokenModel::LexError(LexErrorModel::ImproperSymbol(
                    "'#' is not a valid symbol. Should it be '#{'?"@,
                ))
            } else if cust {
                TokenModel::Custom(s)
            } else if !spec_is_valid_identifier(s) {
                TokenModel::LexError(LexErrorModel::ImproperSymbol(
                    "'"@ + s + "' is a reserved symbol"@,
                ))
            } else if spec_is_disabled(s, disabled) {
                TokenModel::LexError(LexErrorModel::ImproperSymbol(
                    "reserved symbol '"@ + s + "' is disabled"@,
                ))
            } else {
                TokenModel::Reserved(s)
            }
        },
        TokenModel::Identifier(s) => if spec_is_custom(s, custom) {
            TokenModel::Custom(s)
        } else {
            TokenModel::Identifier(s)
        },
        _ => {
            if spec_is_keyword(t) && disabled is Some && custom is Some && spec_is_custom(
                spec_syntax(t),
                custom,
            ) {
                TokenModel::Custom(spec_syntax(t))
            } else if spec_is_operator(t) && spec_is_disabled(spec_syntax(t), disabled)
                && disabled is Some {
                TokenModel::LexError(LexErrorModel::UnexpectedInput(spec_syntax(t)))
            } else if spec_is_keyword(t) && spec_is_disabled(spec_syntax(t), disabled)
                && disabled is Some {
                TokenModel::Reserved(spec_syntax(t))
            } else {
                t
            }
        },
    }
}

/// Reclassify one raw token against the embedder configuration.
fn apply_overrides(token: Token, config: &LexConfig) -> (r: Token)
    requires
        spec_config_wf(config.spec_disabled(), config.spec_custom()),
    ensures
        r@ == spec_override(token@, config.spec_disabled(), config.spec_custom()),
{
    match token {
        Token::Reserved(s) => {
            let cust = match &config.custom_keywords {
                Some(m) => m.contains_key(s.as_str()),
                None => false,
            };
            if str_eq(s.as_str(), "===") && !cust {
                Token::LexError(LexError::ImproperSymbol(String::from_str(
                    "'===' is not a valid operator. This is not JavaScript! Should it be '=='?",
                )))
            } else if str_eq(s.as_str(), "!==") && !cust {
                Token::LexError(LexError::ImproperSymbol(String::from_str(
                    "'!==' is not a valid operator. This is not JavaScript! Should it be '!='?",
                )))
            } else if str_eq(s.as_str(), "->") && !cust {
                Token::LexError(LexError::ImproperSymbol(String::from_str(
                    "'->' is not a valid symbol. This is not C or C++!",
                )))
            } else if str_eq(s.as_str(), "<-") && !cust {
                Token::LexError(LexError::ImproperSymbol(String::from_str(
                    "'<-' is not a valid symbol. This is not Go! Should it be '<='?",
                )))
            } else if str_eq(s.as_str(), "=>") && !cust {
                Token::LexError(LexError::ImproperSymbol(String::from_str(
                    "'=>' is not a valid symbol. This is not Rust! Should it be '>='?",
                )))
            } else if str_eq(s.as_str(), ":=") && !cust {
                Token::LexError(LexError::ImproperSymbol(String::from_str(
                    "':=' is not a valid assignment operator. This is not Go! Should it be simply '='?",
                )))
            } else if str_eq(s.as_str(), "::<") && !cust {
                Token::LexError(LexError::ImproperSymbol(String::from_str(
                    "'::<>' is not a valid symbol. This is not Rust! Should it be '::'?",
                )))
            } else if (str_eq(s.as_str(), "(*") || str_eq(s.as_str(), "*)")) && !cust {
                Token::LexError(LexError::ImproperSymbol(String::from_str(
                    "'(* .. *)' is not a valid comment format. This is not Pascal! Should it be '/* .. */'?",
                )))
            } else if str_eq(s.as_str(), "#") && !cust {
                Token::LexError(LexError::ImproperSymbol(String::from_str(
                    "'#' is not a valid symbol. Should it be '#{'?",
                )))
            } else if cust {
                Token::Custom(s)
            } else if !is_valid_identifier(s.as_str()) {
                let mut msg = String::from_str("'");
                msg.append(s.as_str());
                msg.append("' is a reserved symbol");
                Token::LexError(LexError::ImproperSymbol(msg))
            } else {
                let disabled = match &config.disabled_symbols {
                    Some(d) => d.contains(s.as_str()),
                    None => false,
                };
                if disabled {
                    let mut msg = String::from_str("reserved symbol '");
                    msg.append(s.as_str());
                    msg.append("' is disabled");
                    Token::LexError(LexError::ImproperSymbol(msg))
                } else {
                    Token::Reserved(s)
                }
            }
        },
        Token::Identifier(s) => {
            let cust = match &config.custom_keywords {
                Some(m) => m.contains_key(s.as_str()),
                None => false,
            };
            if cust {
                Token::Custom(s)
            } else {
                Token::Identifier(s)
            }
        },
        token => {
            let is_kw = token.is_keyword();
            let is_op = token.is_operator();
            if is_kw || is_op {
                let syntax = token.syntax();
                if is_kw {
                    let custom_match = match (&config.disabled_symbols, &config.custom_keywords) {
                        (Some(_), Some(m)) => m.contains_key(syntax.as_str()),
                        _ => false,
                    };
                    if custom_match {
                        // The configuration contract makes such a keyword
                        // disabled as well, so promoting it is safe.
                        return Token::Custom(syntax);
                    }
                }
                let disabled = match &config.disabled_symbols {
                    Some(d) => d.contains(syntax.as_str()),
                    None => false,
                };
                if is_op && disabled {
                    return Token::LexError(LexError::UnexpectedInput(syntax));
                }
                if is_kw && disabled {
                    return Token::Reserved(syntax);
                }
                token
            } else {
                token
            }
        },
    }
}

/// An iterator over the token stream of an input, applying the override
/// layer to each raw token.
pub struct TokenIterator<'a, 'c> {
    /// The embedder configuration in force for this stream.
    pub config: &'c LexConfig,
    /// Current tokenizer state.
    pub state: TokenizeState,
    /// Current position.
    pub pos: Position,
    /// Input character stream.
    pub stream: MultiInputsStream<'a>,
}

impl<'a, 'c> TokenIterator<'a, 'c> {
    /// The iterator's internal consistency: a sound stream, a real
    /// position, and a configuration meeting the override layer's
    /// contract.
    pub open spec fn wf(&self) -> bool {
        &&& self.stream.wf()
        &&& self.pos.line != 0
        &&& spec_config_wf(self.config.spec_disabled(), self.config.spec_custom())
    }

    /// Pull the next token: the raw tokenizer's next step, passed through
    /// the override layer, or nothing once the stream signals exhaustion.
    pub fn next(&mut self) -> (r: Option<(Token, Position)>)
        requires
            old(self).wf(),
        ensures
            final(self).wf(),
            final(self).config == old(self).config,
            ({
                let step = spec_next(old(self).stream.remaining(), old(self).state, old(self).pos);
                &&& final(self).stream.remaining() == step.rem
                &&& final(self).pos == step.pos
                &&& match (r, step.item) {
                    (Some((t, p)), Some((tm, pm))) => t@ == spec_override(
                        tm,
                        old(self).config.spec_disabled(),
                        old(self).config.spec_custom(),
                    ) && p == pm && final(self).state == (TokenizeState {
                        non_unary: !spec_is_next_unary(tm),
                        ..step.st
                    }),
                    (None, None) => final(self).state == step.st,
                    _ => false,
                }
            }),
    {
        match get_next_token(&mut self.stream, &mut self.state, &mut self.pos) {
            Some((token, pos)) => Some((apply_overrides(token, self.config), pos)),
            None => None,
        }
    }
}

/// Tokenize an ordered list of input text fragments against an embedder
/// configuration snapshot, as a lazy token iterator starting at line 1.
pub fn lex<'a, 'c>(input: &[&'a str], config: &'c LexConfig) -> (r: TokenIterator<'a, 'c>)
    requires
        spec_config_wf(config.spec_disabled(), config.spec_custom()),
    ensures
        r.wf(),
        r.config == config,
        r.stream.remaining() == remaining_from(input@, 0),
        r.state == (TokenizeState {
            max_string_size: config.max_string_size,
            non_unary: false,
            comment_level: 0,
            end_with_none: false,
            include_comments: false,
        }),
        r.pos == (Position { line: 1, pos: 0 }),
{
    TokenIterator {
        config,
        state: TokenizeState {
            max_string_size: config.max_string_size,
            non_unary: false,
            comment_level: 0,
            end_with_none: false,
            include_comments: false,
        },
        pos: Position::new(1, 0),
        stream: MultiInputsStream::new(input),
    }
}

} // verus!
