//! The token alphabet that clause lists, signatures and generated
//! implementation blocks are made of.

use vstd::prelude::*;
use vstd::string::StringExecFns;

verus! {

/// One lexical token. Keywords, delimiters and the punctuation that the
/// generator itself reads or emits have their own variants; every other
/// token is carried verbatim as `Ident` (a plain identifier) or `Other`
/// (anything else, such as `::`, `&`, `->`, a lifetime or a literal).
#[derive(Debug, Clone, PartialEq, Eq)]
pub enum Token {
    UseKw,
    ForKw,
    ImplKw,
    Semi,
    Comma,
    Dot,
    OpenParen,
    CloseParen,
    OpenBracket,
    CloseBracket,
    OpenBrace,
    CloseBrace,
    Ident(String),
    Other(String),
}

/// The mathematical value of a token: the same shape, with character
/// sequences in place of strings.
pub enum TokenV {
    UseKw,
    ForKw,
    ImplKw,
    Semi,
    Comma,
    Dot,
    OpenParen,
    CloseParen,
    OpenBracket,
    CloseBracket,
    OpenBrace,
    CloseBrace,
    Ident(Seq<char>),
    Other(Seq<char>),
}

impl View for Token {
    type V = TokenV;

    open spec fn view(&self) -> TokenV {
        match self {
            Token::UseKw => TokenV::UseKw,
            Token::ForKw => TokenV::ForKw,
            Token::ImplKw => TokenV::ImplKw,
            Token::Semi => TokenV::Semi,
            Token::Comma => TokenV::Comma,
            Token::Dot => TokenV::Dot,
            Token::OpenParen => TokenV::OpenParen,
            Token::CloseParen => TokenV::CloseParen,
            Token::OpenBracket => TokenV::OpenBracket,
            Token::CloseBracket => TokenV::CloseBracket,
            Token::OpenBrace => TokenV::OpenBrace,
            Token::CloseBrace => TokenV::CloseBrace,
            Token::Ident(s) => TokenV::Ident(s@),
            Token::Other(s) => TokenV::Other(s@),
        }
    }
}

impl DeepView for Token {
    type V = TokenV;

    open spec fn deep_view(&self) -> TokenV {
        self.view()
    }
}

impl Token {
    /// An exact copy of the token.
    pub fn duplicate(&self) -> (r: Token)
        ensures
            r@ == self@,
    {
        match self {
            Token::UseKw => Token::UseKw,
            Token::ForKw => Token::ForKw,
            Token::ImplKw => Token::ImplKw,
            Token::Semi => Token::Semi,
            Token::Comma => Token::Comma,
            Token::Dot => Token::Dot,
            Token::OpenParen => Token::OpenParen,
            Token::CloseParen => Token::CloseParen,
            Token::OpenBracket => Token::OpenBracket,
            Token::CloseBracket => Token::CloseBracket,
            Token::OpenBrace => Token::OpenBrace,
            Token::CloseBrace => Token::CloseBrace,
            Token::Ident(s) => Token::Ident(s.clone()),
            Token::Other(s) => Token::Other(s.clone()),
        }
    }
}

/// The text of one token.
pub open spec fn token_chars(t: TokenV) -> Seq<char> {
    match t {
        TokenV::UseKw => seq!['u', 's', 'e'],
        TokenV::ForKw => seq!['f', 'o', 'r'],
        TokenV::ImplKw => seq!['i', 'm', 'p', 'l'],
        TokenV::Semi => seq![';'],
        TokenV::Comma => seq![','],
        TokenV::Dot => seq!['.'],
        TokenV::OpenParen => seq!['('],
        TokenV::CloseParen => seq![')'],
        TokenV::OpenBracket => seq!['['],
        TokenV::CloseBracket => seq![']'],
        TokenV::OpenBrace => seq!['{'],
        TokenV::CloseBrace => seq!['}'],
        TokenV::Ident(s) => s,
        TokenV::Other(s) => s,
    }
}

/// The text of a token sequence: each token's text followed by one space.
pub open spec fn rendered(ts: Seq<TokenV>) -> Seq<char>
    decreases ts.len(),
{
    if ts.len() == 0 {
        Seq::empty()
    } else {
        token_chars(ts[0]) + seq![' '] + rendered(ts.skip(1))
    }
}

impl Token {
    /// The token's text, as a borrowed string.
    pub fn as_text(&self) -> (r: &str)
        ensures
            r@ == token_chars(self@),
    {
        proof {
            reveal_strlit("use");
            reveal_strlit("for");
            reveal_strlit("impl");
            reveal_strlit(";");
            reveal_strlit(",");
            reveal_strlit(".");
            reveal_strlit("(");
            reveal_strlit(")");
            reveal_strlit("[");
            reveal_strlit("]");
            reveal_strlit("{");
            reveal_strlit("}");
        }
        match self {
            Token::UseKw => {
                let r = "use";
                proof {
                    assert(r@ =~= token_chars(self@));
                }
                r
            },
            Token::ForKw => {
                let r = "for";
                proof {
                    assert(r@ =~= token_chars(self@));
                }
                r
            },
            Token::ImplKw => {
                let r = "impl";
                proof {
                    assert(r@ =~= token_chars(self@));
                }
                r
            },
            Token::Semi => {
                let r = ";";
                proof {
                    assert(r@ =~= token_chars(self@));
                }
                r
            },
            Token::Comma => {
                let r = ",";
                proof {
                    assert(r@ =~= token_chars(self@));
                }
                r
            },
            Token::Dot => {
                let r = ".";
                proof {
                    assert(r@ =~= token_chars(self@));
                }
                r
            },
            Token::OpenParen => {
                let r = "(";
                proof {
                    assert(r@ =~= token_chars(self@));
                }
                r
            },
            Token::CloseParen => {
                let r = ")";
                proof {
                    assert(r@ =~= token_chars(self@));
                }
                r
            },
            Token::OpenBracket => {
                let r = "[";
                proof {
                    assert(r@ =~= token_chars(self@));
                }
                r
            },
            Token::CloseBracket => {
                let r = "]";
                proof {
                    assert(r@ =~= token_chars(self@));
                }
                r
            },
            Token::OpenBrace => {
                let r = "{";
                proof {
                    assert(r@ =~= token_chars(self@));
                }
                r
            },
            Token::CloseBrace => {
                let r = "}";
                proof {
                    assert(r@ =~= token_chars(self@));
                }
                r
            },
            Token::Ident(s) => s.as_str(),
            Token::Other(s) => s.as_str(),
        }
    }
}

/// Appends a copy of every token of `src` to `dst`, in order.
pub fn append_copy(dst: &mut Vec<Token>, src: &Vec<Token>)
    ensures
        final(dst).deep_view() == old(dst).deep_view() + src.deep_view(),
{
    let ghost base = dst.deep_view();
    let mut j: usize = 0;
    proof {
        assert(base + src.deep_view().take(0) =~= base);
    }
    while j < src.len()
        invariant
            j <= src.len(),
            dst.deep_view() == base + src.deep_view().take(j as int),
        decreases src.len() - j,
    {
        let ghost before = dst.deep_view();
        dst.push(src[j].duplicate());
        proof {
            assert(dst.deep_view() =~= before.push(src.deep_view()[j as int]));
            assert(before.push(src.deep_view()[j as int]) =~= base + src.deep_view().take(
                j as int + 1,
            ));
        }
        j = j + 1;
    }
    proof {
        assert(src.deep_view().take(src.len() as int) =~= src.deep_view());
    }
}

/// Renders a token sequence as text, each token followed by one space.
pub fn render(ts: &Vec<Token>) -> (r: String)
    ensures
        r@ == rendered(ts.deep_view()),
{
    let ghost full = ts.deep_view();
    let mut out = String::new();
    let mut i: usize = 0;
    proof {
        assert(full.skip(0) =~= full);
        assert(out@ + rendered(full) =~= rendered(full));
    }
    while i < ts.len()
        invariant
            i <= ts.len(),
            full == ts.deep_view(),
            rendered(full) == out@ + rendered(full.skip(i as int)),
        decreases ts.len() - i,
    {
        let t = &ts[i];
        let text = t.as_text();
        out.append(text);
        out.append(" ");
        proof {
            reveal_strlit(" ");
            assert(" "@ =~= seq![' ']);
            assert(full.skip(i as int)[0] == t@);
            assert(full.skip(i as int).skip(1) =~= full.skip(i as int + 1));
            assert(rendered(full.skip(i as int)) == token_chars(t@) + seq![' '] + rendered(
                full.skip(i as int + 1),
            ));
        }
        i = i + 1;
    }
    proof {
        assert(full.skip(ts.len() as int) =~= Seq::<TokenV>::empty());
        assert(out@ =~= out@ + rendered(full.skip(ts.len() as int)));
    }
    out
}

} // verus!
