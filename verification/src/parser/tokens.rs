//! Streams of characters and the tokens parsed from them.
use vstd::prelude::*;
use crate::item::views;
use crate::parser::error::{ParsingError, ParsingErrorType};
use crate::parser::tokenimpl::{Char, char_token_text};

verus! {

/// A token: something that can be parsed from a stream of characters.
pub trait Parseable: Sized + View {
    /// What parsing this token from the front of `input` gives: the token
    /// and how many characters it took, or `None` where parsing fails.
    spec fn spec_parse(input: Seq<char>) -> Option<(Self::V, nat)>;

    /// Parse the token at the stream's position.
    fn parse(s: &mut LexerStream) -> (r: Result<Self, ParsingError>)
        requires
            old(s).wf(),
        ensures
            parsed_as(*old(s), *final(s), r, Self::spec_parse(old(s).rest())),
    ;

    /// The token's name, recorded while it is being parsed.
    spec fn spec_name() -> Seq<char>;

    /// The token's name, recorded while it is being parsed.
    fn name() -> (r: String)
        ensures
            r@ == Self::spec_name(),
    ;
}

/// `r`, returned by parsing from stream `old` (which became `new`), is what
/// `p` describes; the characters are unchanged, the lexer keeps its frames.
pub open spec fn parsed_as<T: View>(old: LexerStream, new: LexerStream, r: Result<T, ParsingError>, p: Option<(T::V, nat)>) -> bool {
    &&& new.wf()
    &&& new.chars@ == old.chars@
    &&& lexer_kept(old.lexer_state(), new.lexer_state())
    &&& match p {
        Some((v, n)) => r matches Ok(x) && x@ == v && new.position == old.position + n,
        None => r is Err,
    }
}

/// The lexer state `new` has the frames of `old`: the same names, the same
/// number of counters, and the same counters but for the innermost.
pub open spec fn lexer_kept(old: Lexer, new: Lexer) -> bool {
    &&& new.names() == old.names()
    &&& new.counts().len() == old.counts().len()
    &&& forall|i: int| 0 <= i < old.counts().len() - 1 ==> new.counts()[i] == old.counts()[i]
}

/// A token, with the start and end indices of its characters.
#[derive(Debug, PartialEq, Eq, Clone, Copy)]
pub struct Token<T: Parseable> {
    pub token: T,
    pub start: usize,
    pub end: usize,
}

impl<T: Parseable> Token<T> {
    /// Make a token.
    pub fn new(token: T, start: usize, end: usize) -> (r: Self)
        ensures
            r.token == token,
            r.start == start,
            r.end == end,
    {
        Self { token, start, end }
    }
}

/// The counts with one more parsed sub-token for the innermost token, if
/// any; a count stays at its maximum once there.
pub open spec fn counted(counts: Seq<usize>) -> Seq<usize> {
    if counts.len() == 0 {
        counts
    } else if counts.last() < usize::MAX {
        counts.update(counts.len() - 1, (counts.last() + 1) as usize)
    } else {
        counts
    }
}

/// A `Lexer`: what is being parsed (the innermost last), and for each
/// token being parsed, how many of its sub-tokens were parsed.
pub struct Lexer {
    successful_parsed_tokens: Vec<usize>,
    currently_parsing: Vec<String>,
}

impl Lexer {
    /// The names of the tokens being parsed.
    pub closed spec fn names(self) -> Seq<Seq<char>> {
        views(self.currently_parsing@)
    }

    /// The counts of parsed sub-tokens, one per token being parsed.
    pub closed spec fn counts(self) -> Seq<usize> {
        self.successful_parsed_tokens@
    }

    /// The names of the tokens being parsed.
    pub fn currently_parsing_list(&self) -> (r: Vec<String>)
        ensures
            views(r@) == self.names(),
    {
        let mut out: Vec<String> = Vec::new();
        let mut i: usize = 0;
        while i < self.currently_parsing.len()
            invariant
                i <= self.currently_parsing.len(),
                views(out@) == views(self.currently_parsing@).subrange(0, i as int),
            decreases self.currently_parsing.len() - i,
        {
            let ghost prev = out@;
            out.push(self.currently_parsing[i].clone());
            assert(views(out@) =~= views(prev).push(self.currently_parsing@[i as int]@));
            i = i + 1;
            assert(views(out@) =~= views(self.currently_parsing@).subrange(0, i as int));
        }
        assert(views(self.currently_parsing@).subrange(0, i as int) =~= self.names());
        out
    }

    /// The name of the innermost token being parsed.
    pub fn currently_parsing(&self) -> (r: Option<&str>)
        ensures
            match r {
                Some(s) => self.names().len() > 0 && s@ == self.names().last(),
                None => self.names().len() == 0,
            },
    {
        let n = self.currently_parsing.len();
        if n == 0 {
            None
        } else {
            Some(self.currently_parsing[n - 1].as_str())
        }
    }

    /// A lexer that parses nothing yet.
    pub fn new() -> (r: Lexer)
        ensures
            r.names() == Seq::<Seq<char>>::empty(),
            r.counts() == Seq::<usize>::empty(),
    {
        let r = Self { successful_parsed_tokens: Vec::new(), currently_parsing: Vec::new() };
        assert(r.names() =~= Seq::<Seq<char>>::empty());
        r
    }

    /// A stream of the characters of `string`, from its start, with this lexer.
    pub fn stream(this: Lexer, string: String) -> (r: LexerStream)
        ensures
            r.wf(),
            r.chars@ == string@,
            r.position == 0,
            r.lexer_state() == this,
    {
        let chars = crate::text::chars_of(string.as_str());
        LexerStream::new(chars, 0, this)
    }

    /// Enter a token: record its name and a count of zero.
    fn enter(&mut self, name: String)
        ensures
            final(self).names() == old(self).names().push(name@),
            final(self).counts() == old(self).counts().push(0),
    {
        let ghost prev = self.currently_parsing@;
        self.currently_parsing.push(name);
        assert(views(self.currently_parsing@) =~= views(prev).push(name@));
        self.successful_parsed_tokens.push(0);
    }

    /// Leave the innermost token; return its count.
    fn leave(&mut self) -> (r: usize)
        requires
            old(self).names().len() > 0,
            old(self).counts().len() > 0,
        ensures
            final(self).names() == old(self).names().drop_last(),
            final(self).counts() == old(self).counts().drop_last(),
            r == old(self).counts().last(),
    {
        let ghost prev = self.currently_parsing@;
        self.currently_parsing.pop();
        assert(views(self.currently_parsing@) =~= views(prev).drop_last());
        self.successful_parsed_tokens.pop().unwrap()
    }

    /// Count one more parsed sub-token for the innermost token, if any
    /// (the count stays at its maximum once there).
    fn count_success(&mut self)
        ensures
            final(self).names() == old(self).names(),
            final(self).counts().len() == old(self).counts().len(),
            forall|i: int| 0 <= i < old(self).counts().len() - 1 ==> final(self).counts()[i] == old(self).counts()[i],
            final(self).counts() == counted(old(self).counts()),
    {
        let n = self.successful_parsed_tokens.len();
        if n > 0 {
            let v = self.successful_parsed_tokens[n - 1];
            self.successful_parsed_tokens.set(n - 1, v.saturating_add(1));
        }
    }
}

/// A stream of characters, a position in it, and the lexer that records
/// what is being parsed.
pub struct LexerStream {
    pub chars: Vec<char>,
    pub position: usize,
    pub lexer: Lexer,
}

impl LexerStream {
    /// The lexer's state.
    pub open spec fn lexer_state(self) -> Lexer {
        self.lexer
    }

    /// The position is within the characters.
    pub open spec fn wf(self) -> bool {
        self.position <= self.chars@.len()
    }

    /// The characters from the position on.
    pub open spec fn rest(self) -> Seq<char> {
        self.chars@.skip(self.position as int)
    }

    fn new(chars: Vec<char>, position: usize, lexer: Lexer) -> (r: Self)
        ensures
            r.chars == chars,
            r.position == position,
            r.lexer_state() == lexer,
    {
        Self { chars, position, lexer }
    }

    /// Take the characters in `range` out of this stream into a new stream,
    /// which goes on with this stream's lexer (this stream keeps an empty one
    /// until [`LexerStream::rejoin`] gives it back). A range that starts
    /// before the characters already read is refused, and the stream stays
    /// as it was.
    pub fn split(&mut self, range: std::ops::Range<usize>) -> (r: Result<LexerStream, ParsingError>)
        requires
            range.start <= range.end <= old(self).chars@.len(),
        ensures
            match r {
                Ok(c) => {
                    &&& old(self).position <= range.start
                    &&& c.chars@ == old(self).chars@.subrange(range.start as int, range.end as int)
                    &&& c.position == 0
                    &&& c.lexer_state() == old(self).lexer_state()
                    &&& final(self).chars@ == old(self).chars@.subrange(0, range.start as int)
                        + old(self).chars@.subrange(range.end as int, old(self).chars@.len() as int)
                    &&& final(self).position == old(self).position
                    &&& final(self).lexer_state().names().len() == 0
                    &&& final(self).lexer_state().counts().len() == 0
                },
                Err(e) => {
                    &&& old(self).position > range.start
                    &&& e.error_type matches ParsingErrorType::TokenizerError(m)
                    &&& m@ == "range outside of eaten characters"@
                    &&& e.position == old(self).position
                    &&& *final(self) == *old(self)
                },
            },
    {
        if self.position > range.start {
            return Err(ParsingErrorType::TokenizerError(crate::text::owned("range outside of eaten characters")).to(self));
        }
        let mut taken: Vec<char> = Vec::new();
        let mut kept: Vec<char> = Vec::new();
        let mut i: usize = 0;
        let ghost c = self.chars@;
        let ghost lo = range.start as int;
        let ghost hi = range.end as int;
        while i < self.chars.len()
            invariant
                i <= self.chars.len(),
                self.chars == old(self).chars,
                c == self.chars@,
                lo == range.start,
                hi == range.end,
                0 <= lo <= hi <= c.len(),
                taken@ == c.subrange(lo, if i < lo { lo } else if i < hi { i as int } else { hi }),
                kept@ == c.subrange(0, if i < lo { i as int } else { lo }) + c.subrange(hi, if i < hi { hi } else { i as int }),
            decreases self.chars.len() - i,
        {
            if range.start <= i && i < range.end {
                taken.push(self.chars[i]);
            } else {
                kept.push(self.chars[i]);
            }
            i = i + 1;
            assert(taken@ =~= c.subrange(lo, if i < lo { lo } else if i < hi { i as int } else { hi }));
            assert(kept@ =~= c.subrange(0, if i < lo { i as int } else { lo }) + c.subrange(hi, if i < hi { hi } else { i as int }));
        }
        self.chars = kept;
        let mut lexer = Lexer::new();
        std::mem::swap(&mut lexer, &mut self.lexer);
        Ok(Self::new(taken, 0, lexer))
    }

    /// Give back to this stream the lexer that a stream taken from it went on with.
    pub fn rejoin(&mut self, child: LexerStream)
        ensures
            final(self).chars == old(self).chars,
            final(self).position == old(self).position,
            final(self).lexer_state() == child.lexer_state(),
    {
        self.lexer = child.lexer;
    }

    /// The stream's lexer.
    pub fn lexer(&self) -> (r: &Lexer)
        ensures
            *r == self.lexer_state(),
    {
        &self.lexer
    }

    /// The characters from the position on.
    pub fn chars(&self) -> (r: &[char])
        requires
            self.wf(),
        ensures
            r@ == self.rest(),
    {
        vstd::slice::slice_subrange(self.chars.as_slice(), self.position, self.chars.len())
    }

    /// Whether all characters were read.
    pub fn ended(&self) -> (r: bool)
        ensures
            r == (self.position >= self.chars@.len()),
    {
        self.position >= self.chars.len()
    }

    /// Grab the next character; the end-of-stream error where there are none.
    pub fn char(&mut self) -> (r: Result<char, ParsingError>)
        requires
            old(self).wf(),
        ensures
            final(self).wf(),
            final(self).chars == old(self).chars,
            final(self).lexer_state() == old(self).lexer_state(),
            match r {
                Ok(c) => old(self).rest().len() > 0 && c == old(self).rest()[0]
                    && final(self).position == old(self).position + 1,
                Err(e) => old(self).rest().len() == 0 && e.error_type is EOSError
                    && e.position == old(self).position
                    && crate::item::views(e.while_parsing@) == old(self).lexer_state().names()
                    && final(self).position == old(self).position,
            },
    {
        if self.position >= self.chars.len() {
            Err(ParsingErrorType::EOSError.to(self))
        } else {
            let c = self.chars[self.position];
            self.position = self.position + 1;
            Ok(c)
        }
    }

    /// Start parsing a token named `name`; return the position it starts at.
    pub(crate) fn begin_token(&mut self, name: String) -> (r: usize)
        ensures
            r == old(self).position,
            final(self).chars == old(self).chars,
            final(self).position == old(self).position,
            final(self).lexer_state().names() == old(self).lexer_state().names().push(name@),
            final(self).lexer_state().counts() == old(self).lexer_state().counts().push(0),
    {
        self.lexer.enter(name);
        self.position
    }

    /// Finish a token that parsed: leave its frame and count it for the enclosing token.
    pub(crate) fn end_token_ok(&mut self)
        requires
            old(self).lexer_state().names().len() > 0,
            old(self).lexer_state().counts().len() > 0,
        ensures
            final(self).chars == old(self).chars,
            final(self).position == old(self).position,
            final(self).lexer_state().names() == old(self).lexer_state().names().drop_last(),
            final(self).lexer_state().counts().len() == old(self).lexer_state().counts().len() - 1,
            forall|i: int| 0 <= i < old(self).lexer_state().counts().len() - 2
                ==> final(self).lexer_state().counts()[i] == old(self).lexer_state().counts()[i],
    {
        self.lexer.leave();
        self.lexer.count_success();
    }

    /// Finish a token that failed: leave its frame, go back to where it
    /// started, and return the count of its parsed sub-tokens.
    pub(crate) fn end_token_err(&mut self, start: usize) -> (r: usize)
        requires
            old(self).lexer_state().names().len() > 0,
            old(self).lexer_state().counts().len() > 0,
        ensures
            final(self).chars == old(self).chars,
            final(self).position == start,
            final(self).lexer_state().names() == old(self).lexer_state().names().drop_last(),
            final(self).lexer_state().counts() == old(self).lexer_state().counts().drop_last(),
    {
        self.position = start;
        self.lexer.leave()
    }

    /// Attempt to parse a token. On failure, return the error and how many
    /// of the token's sub-tokens were parsed, and stand where it started.
    pub fn token<T: Parseable>(&mut self) -> (r: Result<Token<T>, (ParsingError, usize)>)
        requires
            old(self).wf(),
        ensures
            token_as(*old(self), *final(self), r, T::spec_parse(old(self).rest())),
    {
        let start = self.begin_token(T::name());
        let ghost mid = *self;
        match T::parse(self) {
            Ok(v) => {
                proof {
                    assert(self.lexer_state().counts().len() == mid.lexer_state().counts().len());
                }
                self.end_token_ok();
                let end = self.position;
                assert(self.lexer_state().names() =~= old(self).lexer_state().names());
                Ok(Token::new(v, start, end))
            },
            Err(e) => {
                let n = self.end_token_err(start);
                assert(self.lexer_state().names() =~= old(self).lexer_state().names());
                assert(self.lexer_state().counts() =~= old(self).lexer_state().counts());
                Err((e, n))
            },
        }
    }
}

/// `r`, returned by parsing a token from stream `old` (which became `new`),
/// is what `p` describes; on failure the stream stands where it started.
pub open spec fn token_as<T: Parseable>(old: LexerStream, new: LexerStream, r: Result<Token<T>, (ParsingError, usize)>, p: Option<(T::V, nat)>) -> bool {
    &&& new.wf()
    &&& new.chars@ == old.chars@
    &&& lexer_kept(old.lexer_state(), new.lexer_state())
    &&& match p {
        Some((v, n)) => r matches Ok(t) && t.token@ == v && t.start == old.position
            && t.end == old.position + n && new.position == t.end,
        None => r is Err && new.position == old.position,
    }
}

/// Scanning `r` from index `i` with `depth` open delimiters: the index of
/// the delimiter that closes the first, or `None` where the characters end
/// first.
pub open spec fn enclosed_scan(r: Seq<char>, open: u32, close: u32, i: nat, depth: nat) -> Option<nat>
    decreases r.len() - i,
{
    if i >= r.len() {
        None
    } else {
        let d: int = if r[i as int] as u32 == open {
            depth + 1int
        } else if r[i as int] as u32 == close {
            depth - 1
        } else {
            depth as int
        };
        if d == 0 {
            Some(i)
        } else {
            enclosed_scan(r, open, close, i + 1, d as nat)
        }
    }
}

/// A scan that finds the closing delimiter finds it at or after where it
/// starts, and inside the characters.
pub proof fn lemma_enclosed_scan(r: Seq<char>, open: u32, close: u32, i: nat, depth: nat)
    ensures
        enclosed_scan(r, open, close, i, depth) matches Some(j) ==> i <= j < r.len(),
    decreases r.len() - i,
{
    if i < r.len() {
        let d: int = if r[i as int] as u32 == open {
            depth + 1int
        } else if r[i as int] as u32 == close {
            depth - 1
        } else {
            depth as int
        };
        if d != 0 {
            lemma_enclosed_scan(r, open, close, i + 1, d as nat);
        }
    }
}

/// An enclosed run takes both delimiters and what lies between them: at
/// least two characters, and no more than there are.
pub proof fn lemma_spec_enclosed(r: Seq<char>, open: u32, close: u32)
    ensures
        spec_enclosed(r, open, close) matches Some((c, n)) ==> 2 <= n <= r.len() && c.len() == n - 2,
{
    if r.len() >= 1 && r[0] as u32 == open {
        lemma_enclosed_scan(r, open, close, 1, 1);
    }
}

/// The end-of-stream error that parsing the character with code `C` as a
/// token gives at the end of the stream `s`: it is recorded while that
/// token is being parsed.
fn end_in_char<const C: u32>(s: &LexerStream) -> (r: ParsingError)
    ensures
        r.error_type is EOSError,
        r.position == s.position,
        crate::item::views(r.while_parsing@) == s.lexer_state().names().push(char_token_text(C)),
{
    let mut names = s.lexer().currently_parsing_list();
    let ghost prev = names@;
    names.push(<Char<C> as Parseable>::name());
    assert(crate::item::views(names@) =~= crate::item::views(prev).push(char_token_text(C)));
    ParsingError::new(ParsingErrorType::EOSError, names, s.position)
}

/// What [`enclosed`] takes from the front of `r`: the characters between an
/// opening delimiter and the delimiter that closes it (delimiters nest), and
/// how many characters that is with both delimiters.
pub open spec fn spec_enclosed(r: Seq<char>, open: u32, close: u32) -> Option<(Seq<char>, nat)> {
    if r.len() >= 1 && r[0] as u32 == open {
        match enclosed_scan(r, open, close, 1, 1) {
            Some(j) => Some((r.subrange(1, j as int), j + 1)),
            None => None,
        }
    } else {
        None
    }
}

/// Take the characters between the delimiter with code `OPEN` at the
/// stream's position and the delimiter with code `CLOSE` that closes it, as a
/// new stream. The new stream goes on with this stream's lexer (give it back
/// with [`LexerStream::rejoin`]).
pub fn enclosed<const OPEN: u32, const CLOSE: u32>(stream: &mut LexerStream) -> (r: Result<LexerStream, ParsingError>)
    requires
        old(stream).wf(),
    ensures
        final(stream).wf(),
        final(stream).chars@ == old(stream).chars@,
        old(stream).rest().len() >= 1 && old(stream).rest()[0] as u32 == OPEN
            && enclosed_scan(old(stream).rest(), OPEN, CLOSE, 1, 1) is None ==> (r matches Err(e)
            && e.error_type is EOSError && e.position == old(stream).chars@.len()
            && crate::item::views(e.while_parsing@) == old(stream).lexer_state().names().push(char_token_text(OPEN))),
        match spec_enclosed(old(stream).rest(), OPEN, CLOSE) {
            Some((content, n)) => r matches Ok(c) && c.chars@ == content && c.position == 0 && c.wf()
                && lexer_kept(old(stream).lexer_state(), c.lexer_state())
                && final(stream).position == old(stream).position + n
                && final(stream).lexer_state().names().len() == 0,
            None => r is Err && lexer_kept(old(stream).lexer_state(), final(stream).lexer_state()),
        },
{
    let ghost r = old(stream).rest();
    let start_pos = stream.position;
    match stream.token::<Char<OPEN>>() {
        Ok(_) => {},
        Err(e) => {
            return Err(e.0);
        },
    }
    let mut amount: usize = 1;
    let mut stack: usize = 1;
    loop
        invariant
            stream.wf(),
            stream.chars@ == old(stream).chars@,
            r == old(stream).rest(),
            r.len() >= 1 && r[0] as u32 == OPEN,
            start_pos == old(stream).position,
            stream.position == start_pos + amount,
            1 <= stack <= amount,
            enclosed_scan(r, OPEN, CLOSE, 1, 1) == enclosed_scan(r, OPEN, CLOSE, amount as nat, stack as nat),
            lexer_kept(old(stream).lexer_state(), stream.lexer_state()),
        decreases stream.chars@.len() - stream.position,
    {
        assert(stream.rest() =~= r.skip(amount as int));
        if stream.ended() {
            return Err(end_in_char::<OPEN>(stream));
        }
        let ghost c = r[amount as int];
        let mut success = false;
        match stream.token::<Char<OPEN>>() {
            Ok(_) => {
                success = true;
                stack = stack + 1;
            },
            Err(_) => {},
        }
        if !success {
            match stream.token::<Char<CLOSE>>() {
                Ok(_) => {
                    success = true;
                    stack = stack - 1;
                },
                Err(_) => {},
            }
        }
        if !success {
            let ghost n = stream.chars.len();
            assert(stream.position < n);
            stream.position = stream.position + 1;
        }
        amount = amount + 1;
        if stack == 0 {
            stream.position = start_pos + amount;
            let mut v: Vec<char> = Vec::new();
            let end = stream.position - 1;
            let mut i: usize = start_pos + 1;
            while i < end
                invariant
                    start_pos + 1 <= i <= end,
                    end < stream.chars@.len(),
                    v@ == stream.chars@.subrange(start_pos + 1, i as int),
                decreases end - i,
            {
                v.push(stream.chars[i]);
                i = i + 1;
                assert(v@ =~= stream.chars@.subrange(start_pos + 1, i as int));
            }
            assert(v@ =~= r.subrange(1, amount - 1));
            let mut lexer = Lexer::new();
            std::mem::swap(&mut lexer, &mut stream.lexer);
            return Ok(LexerStream::new(v, 0, lexer));
        }
    }
}

/// The position of the first character with code `close` in `r` from `i`
/// on.
pub open spec fn close_scan(r: Seq<char>, close: u32, i: nat) -> Option<nat>
    decreases r.len() - i,
{
    if i >= r.len() {
        None
    } else if r[i as int] as u32 == close {
        Some(i)
    } else {
        close_scan(r, close, i + 1)
    }
}

/// The first closing delimiter found from `i` on lies at `i` or after it,
/// within `r`.
pub proof fn lemma_close_scan(r: Seq<char>, close: u32, i: nat)
    ensures
        close_scan(r, close, i) matches Some(j) ==> i <= j < r.len(),
    decreases r.len() - i,
{
    if i < r.len() && r[i as int] as u32 != close {
        lemma_close_scan(r, close, i + 1);
    }
}

/// What [`delimited`] takes from the front of `r`: the characters between
/// an opening delimiter and the first closing delimiter after it (they do
/// not nest), and how many characters that is with both delimiters.
pub open spec fn spec_delimited(r: Seq<char>, open: u32, close: u32) -> Option<(Seq<char>, nat)> {
    if r.len() >= 1 && r[0] as u32 == open {
        match close_scan(r, close, 1) {
            Some(j) => Some((r.subrange(1, j as int), j + 1)),
            None => None,
        }
    } else {
        None
    }
}

/// A delimited run takes both delimiters and what lies between them: at
/// least two characters, and no more than there are.
pub proof fn lemma_spec_delimited(r: Seq<char>, open: u32, close: u32)
    ensures
        spec_delimited(r, open, close) matches Some((c, n)) ==> 2 <= n <= r.len() && c.len() == n - 2,
{
    if r.len() >= 1 && r[0] as u32 == open {
        lemma_close_scan(r, close, 1);
    }
}

/// Take the characters between the delimiter with code `OPEN` at the
/// stream's position and the first delimiter with code `CLOSE` after it, as
/// a new stream. The new stream goes on with this stream's lexer (give it
/// back with [`LexerStream::rejoin`]).
pub fn delimited<const OPEN: u32, const CLOSE: u32>(stream: &mut LexerStream) -> (r: Result<LexerStream, ParsingError>)
    requires
        old(stream).wf(),
    ensures
        final(stream).wf(),
        final(stream).chars@ == old(stream).chars@,
        old(stream).rest().len() >= 1 && old(stream).rest()[0] as u32 == OPEN
            && close_scan(old(stream).rest(), CLOSE, 1) is None ==> (r matches Err(e)
            && e.error_type is EOSError && e.position == old(stream).chars@.len()
            && crate::item::views(e.while_parsing@) == old(stream).lexer_state().names().push(char_token_text(OPEN))),
        match spec_delimited(old(stream).rest(), OPEN, CLOSE) {
            Some((content, n)) => r matches Ok(c) && c.chars@ == content && c.position == 0 && c.wf()
                && lexer_kept(old(stream).lexer_state(), c.lexer_state())
                && final(stream).position == old(stream).position + n
                && final(stream).lexer_state().names().len() == 0,
            None => r is Err && lexer_kept(old(stream).lexer_state(), final(stream).lexer_state()),
        },
{
    let ghost r = old(stream).rest();
    let start_pos = stream.position;
    match stream.token::<Char<OPEN>>() {
        Ok(_) => {},
        Err(e) => {
            return Err(e.0);
        },
    }
    let mut amount: usize = 1;
    loop
        invariant
            stream.wf(),
            stream.chars@ == old(stream).chars@,
            r == old(stream).rest(),
            r.len() >= 1 && r[0] as u32 == OPEN,
            start_pos == old(stream).position,
            stream.position == start_pos + amount,
            1 <= amount,
            close_scan(r, CLOSE, 1) == close_scan(r, CLOSE, amount as nat),
            lexer_kept(old(stream).lexer_state(), stream.lexer_state()),
        decreases stream.chars@.len() - stream.position,
    {
        assert(stream.rest() =~= r.skip(amount as int));
        if stream.ended() {
            return Err(end_in_char::<OPEN>(stream));
        }
        let mut found = false;
        match stream.token::<Char<CLOSE>>() {
            Ok(_) => {
                found = true;
            },
            Err(_) => {},
        }
        if !found {
            let ghost n = stream.chars.len();
            assert(stream.position < n);
            stream.position = stream.position + 1;
        }
        amount = amount + 1;
        if found {
            stream.position = start_pos + amount;
            let mut v: Vec<char> = Vec::new();
            let end = stream.position - 1;
            let mut i: usize = start_pos + 1;
            while i < end
                invariant
                    start_pos + 1 <= i <= end,
                    end < stream.chars@.len(),
                    v@ == stream.chars@.subrange(start_pos + 1, i as int),
                decreases end - i,
            {
                v.push(stream.chars[i]);
                i = i + 1;
                assert(v@ =~= stream.chars@.subrange(start_pos + 1, i as int));
            }
            assert(v@ =~= r.subrange(1, amount - 1));
            let mut lexer = Lexer::new();
            std::mem::swap(&mut lexer, &mut stream.lexer);
            return Ok(LexerStream::new(v, 0, lexer));
        }
    }
}

/// A stream of tokens; it holds nothing yet.
pub struct TokenStream {}

} // verus!
