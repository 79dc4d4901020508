//! Syntax highlighting: tree-sitter captures turned into colored byte ranges.
use vstd::prelude::*;
use tree_sitter::StreamingIterator;
use crate::text::{starts_with, str_eq, strings_view, utf8_width};

verus! {

#[verifier::external_type_specification]
#[verifier::external_body]
pub struct ExParser(tree_sitter::Parser);

#[verifier::external_type_specification]
#[verifier::external_body]
pub struct ExLanguage(tree_sitter::Language);

#[verifier::external_type_specification]
#[verifier::external_body]
pub struct ExQuery(tree_sitter::Query);

#[verifier::external_type_specification]
#[verifier::external_body]
pub struct ExTree(tree_sitter::Tree);

/// The grammars text can be highlighted with.
#[derive(Debug, Clone, Copy, PartialEq, Eq, Structural)]
pub enum Grammar {
    Rust,
    Python,
    OCaml,
}

/// The grammars an editor is built with.
#[derive(Debug, Clone, Copy, PartialEq, Eq, Structural)]
pub struct GrammarSet {
    pub rust: bool,
    pub python: bool,
    pub ocaml: bool,
}

/// The colors a highlighted range can take.
#[derive(Debug, Clone, Copy, PartialEq, Eq, Structural)]
pub enum HighlightColor {
    Indexed(u8),
    Magenta,
    Cyan,
    White,
}

/// One capture of a query match: which capture name, and the bytes it covers.
#[derive(Debug, Clone, Copy, PartialEq, Eq, Structural)]
pub struct Capture {
    pub index: usize,
    pub start_byte: usize,
    pub end_byte: usize,
}

/// A colored range of bytes of the text.
pub struct HighlightRange {
    pub start_byte: usize,
    pub end_byte: usize,
    pub color: HighlightColor,
}

/// Whether `source` compiles as a tree-sitter query for grammar `g`
/// (`Query::new`).
pub uninterp spec fn query_compiles(g: Grammar, source: Seq<char>) -> bool;

/// The capture names of the query compiled from `source` for grammar `g`, in
/// the order of their indices (`Query::capture_names`).
pub uninterp spec fn query_capture_names(g: Grammar, source: Seq<char>) -> Seq<Seq<char>>;

/// Every capture of every match of the query compiled from `source` for
/// grammar `g`, run over the tree that `g` parses from `text`, in the order
/// the matches come (`QueryCursor::matches`).
pub uninterp spec fn query_captures(g: Grammar, source: Seq<char>, text: Seq<char>) -> Seq<Capture>;

/// The highlight query that the crate of grammar `g` ships (`HIGHLIGHTS_QUERY`).
pub uninterp spec fn shipped_query(g: Grammar) -> Seq<char>;

/// A query compiled for a grammar, with the grammar's language and the
/// source it was compiled from.
struct GrammarQuery {
    grammar: Grammar,
    source: Ghost<Seq<char>>,
    language: tree_sitter::Language,
    query: tree_sitter::Query,
}

/// A tree-sitter parser, with the grammar it was given (`None` before one).
struct GrammarParser {
    grammar: Option<Grammar>,
    parser: tree_sitter::Parser,
}

/// A syntax tree, with the grammar and the text it was parsed from.
struct SyntaxTree {
    grammar: Option<Grammar>,
    text: Ghost<Seq<char>>,
    tree: tree_sitter::Tree,
}

/// Compiles `source` as a query for grammar `g` (`Query::new` on the
/// grammar crate's `LANGUAGE`): a query exactly when it compiles.
#[verifier::external_body]
fn compile_query(g: Grammar, source: &str) -> (r: Option<GrammarQuery>)
    ensures
        r is Some == query_compiles(g, source@),
        r matches Some(q) ==> q.grammar == g && q.source@ == source@,
{
    let language: tree_sitter::Language = match g {
        Grammar::Rust => tree_sitter_rust::LANGUAGE.into(),
        Grammar::Python => tree_sitter_python::LANGUAGE.into(),
        Grammar::OCaml => tree_sitter_ocaml::LANGUAGE_OCAML.into(),
    };
    match tree_sitter::Query::new(&language, source) {
        Ok(query) => Some(GrammarQuery { grammar: g, source: Ghost(source@), language, query }),
        Err(_) => None,
    }
}

/// The highlight query that the crate of grammar `g` ships
/// (`HIGHLIGHTS_QUERY`).
#[verifier::external_body]
fn shipped_highlights(g: Grammar) -> (r: &'static str)
    ensures
        r@ == shipped_query(g),
{
    match g {
        Grammar::Rust => tree_sitter_rust::HIGHLIGHTS_QUERY,
        Grammar::Python => tree_sitter_python::HIGHLIGHTS_QUERY,
        Grammar::OCaml => tree_sitter_ocaml::HIGHLIGHTS_QUERY,
    }
}

/// A parser with no grammar (`Parser::new`).
#[verifier::external_body]
fn new_parser() -> (p: GrammarParser)
    ensures
        p.grammar is None,
{
    GrammarParser { grammar: None, parser: tree_sitter::Parser::new() }
}

/// Gives the parser the language of a compiled query (`Parser::set_language`).
/// That call fails only for a language whose ABI version lies outside the
/// range this tree-sitter reads, and for such a language `Query::new` has
/// already failed (`ts_query_new` checks the same range), so here it succeeds.
#[verifier::external_body]
fn set_parser_grammar(p: &mut GrammarParser, q: &GrammarQuery)
    ensures
        final(p).grammar == Some(q.grammar),
{
    if p.parser.set_language(&q.language).is_ok() {
        p.grammar = Some(q.grammar);
    }
}

/// Parses `text` (`Parser::parse`). It gives no tree only without a language,
/// after a timeout or on cancellation, and no timeout or cancellation flag is
/// ever set: a tree exactly when the parser has a grammar.
#[verifier::external_body]
fn parse_text(p: &mut GrammarParser, text: &str) -> (r: Option<SyntaxTree>)
    ensures
        final(p).grammar == old(p).grammar,
        r is Some == old(p).grammar is Some,
        r matches Some(t) ==> t.grammar == old(p).grammar && t.text@ == text@,
{
    match p.parser.parse(text, None) {
        Some(tree) => Some(SyntaxTree { grammar: p.grammar, text: Ghost(text@), tree }),
        None => None,
    }
}

/// Runs the query over the tree (`QueryCursor::matches`) and lists every
/// capture of every match, in the order the matches come, each with the byte
/// range of its node (`Node::start_byte`, `Node::end_byte`), which lies inside
/// the parsed text.
#[verifier::external_body]
fn captures_of(q: &GrammarQuery, t: &SyntaxTree, text: &str) -> (r: Vec<Capture>)
    requires
        t.grammar == Some(q.grammar),
        t.text@ == text@,
    ensures
        r@ == query_captures(q.grammar, q.source@, text@),
        forall|i: int|
            0 <= i < r@.len() ==> #[trigger] r@[i].start_byte <= r@[i].end_byte <= utf8_width(text@),
{
    let mut cursor = tree_sitter::QueryCursor::new();
    let mut matches = cursor.matches(&q.query, t.tree.root_node(), text.as_bytes());
    let mut out = Vec::new();
    while let Some(m) = matches.next() {
        for c in m.captures {
            out.push(Capture { index: c.index as usize, start_byte: c.node.start_byte(), end_byte: c.node.end_byte() });
        }
    }
    out
}

/// The capture names of the query (`Query::capture_names`), as strings.
#[verifier::external_body]
fn capture_names_of(q: &GrammarQuery) -> (r: Vec<String>)
    ensures
        strings_view(r@) == query_capture_names(q.grammar, q.source@),
{
    q.query.capture_names().iter().map(|s| s.to_string()).collect()
}

/// The color of a capture name, chosen by the family the name begins with.
pub open spec fn color_for_capture(name: Seq<char>) -> HighlightColor {
    if "keyword"@.is_prefix_of(name) {
        HighlightColor::Indexed(80)
    } else if "function"@.is_prefix_of(name) {
        HighlightColor::Indexed(172)
    } else if "string"@.is_prefix_of(name) {
        HighlightColor::Magenta
    } else if "comment"@.is_prefix_of(name) {
        HighlightColor::Indexed(141)
    } else if "type"@.is_prefix_of(name) {
        HighlightColor::Indexed(176)
    } else if "punctuation"@.is_prefix_of(name) {
        HighlightColor::Cyan
    } else {
        HighlightColor::White
    }
}

/// The color of a capture name.
pub fn capture_color(name: &str) -> (c: HighlightColor)
    ensures
        c == color_for_capture(name@),
{
    if starts_with(name, "keyword") {
        HighlightColor::Indexed(80)
    } else if starts_with(name, "function") {
        HighlightColor::Indexed(172)
    } else if starts_with(name, "string") {
        HighlightColor::Magenta
    } else if starts_with(name, "comment") {
        HighlightColor::Indexed(141)
    } else if starts_with(name, "type") {
        HighlightColor::Indexed(176)
    } else if starts_with(name, "punctuation") {
        HighlightColor::Cyan
    } else {
        HighlightColor::White
    }
}


/// The name of a grammar.
pub open spec fn grammar_name(g: Grammar) -> Seq<char> {
    match g {
        Grammar::Rust => "rust"@,
        Grammar::Python => "python"@,
        Grammar::OCaml => "ocaml"@,
    }
}

/// The grammar for a file extension: `rs` Rust, `py` Python, `ml` OCaml.
pub open spec fn grammar_for_extension(ext: Seq<char>) -> Option<Grammar> {
    if ext == "rs"@ {
        Some(Grammar::Rust)
    } else if ext == "py"@ {
        Some(Grammar::Python)
    } else if ext == "ml"@ {
        Some(Grammar::OCaml)
    } else {
        None
    }
}

/// The grammar chosen for a file extension among the grammars `built`: the
/// extension's grammar, when it is built and its shipped highlight query
/// compiles; else none.
pub open spec fn chosen_language(built: GrammarSet, ext: Seq<char>) -> Option<Grammar> {
    match grammar_for_extension(ext) {
        Some(g) => if built.has(g) && query_compiles(g, shipped_query(g)) {
            Some(g)
        } else {
            None
        },
        None => None,
    }
}

/// The range that `c` gets, with `names` the capture names of the query.
pub open spec fn range_of(c: Capture, names: Seq<Seq<char>>) -> (usize, usize, HighlightColor) {
    (c.start_byte, c.end_byte, color_for_capture(names[c.index as int]))
}

/// Every capture index is below `n`.
pub open spec fn indices_below(captures: Seq<Capture>, n: nat) -> bool {
    forall|i: int| 0 <= i < captures.len() ==> #[trigger] captures[i].index < n
}

/// `ranges` are the colored ranges of `captures`, one for each, in order.
pub open spec fn ranges_of(ranges: Seq<HighlightRange>, captures: Seq<Capture>, names: Seq<Seq<char>>) -> bool {
    &&& ranges.len() == captures.len()
    &&& forall|i: int|
        0 <= i < ranges.len() ==> (#[trigger] ranges[i].start_byte, ranges[i].end_byte, ranges[i].color)
            == range_of(captures[i], names)
}

/// What highlighting `text` with grammar `g` gives: the colored range of
/// every capture of the grammar's shipped highlight query, in order; `None`
/// where a capture's index names none of the query's capture names.
pub open spec fn highlighted(g: Grammar, text: Seq<char>, r: Option<Vec<HighlightRange>>) -> bool {
    let captures = query_captures(g, shipped_query(g), text);
    let names = query_capture_names(g, shipped_query(g));
    if indices_below(captures, names.len()) {
        r matches Some(v) && ranges_of(v@, captures, names)
    } else {
        r is None
    }
}

/// A plain build highlights Rust files alone: `rs` gives Rust whenever the
/// shipped Rust query compiles, and every other extension gives no language.
pub proof fn law_plain_build_highlights_rust_alone(ext: Seq<char>)
    ensures
        chosen_language(GrammarSet::plain(), ext) is Some ==> ext == "rs"@,
        ext == "rs"@ && query_compiles(Grammar::Rust, shipped_query(Grammar::Rust)) ==> chosen_language(
            GrammarSet::plain(),
            ext,
        ) == Some(Grammar::Rust),
{
}

/// The grammar for a file extension (`grammar_for_extension`).
pub fn grammar_for(extension: &str) -> (r: Option<Grammar>)
    ensures
        r == grammar_for_extension(extension@),
{
    if str_eq(extension, "rs") {
        Some(Grammar::Rust)
    } else if str_eq(extension, "py") {
        Some(Grammar::Python)
    } else if str_eq(extension, "ml") {
        Some(Grammar::OCaml)
    } else {
        None
    }
}

/// The name of a grammar (`grammar_name`).
pub fn grammar_label(g: Grammar) -> (r: &'static str)
    ensures
        r@ == grammar_name(g),
{
    match g {
        Grammar::Rust => "rust",
        Grammar::Python => "python",
        Grammar::OCaml => "ocaml",
    }
}

impl GrammarSet {
    /// Whether `g` is among the grammars.
    pub open spec fn has(self, g: Grammar) -> bool {
        match g {
            Grammar::Rust => self.rust,
            Grammar::Python => self.python,
            Grammar::OCaml => self.ocaml,
        }
    }

    /// The grammars of a plain build: Rust alone.
    pub open spec fn plain() -> Self {
        GrammarSet { rust: true, python: false, ocaml: false }
    }

    /// The grammars of a plain build: Rust alone.
    pub fn rust_only() -> (s: Self)
        ensures
            s == Self::plain(),
    {
        GrammarSet { rust: true, python: false, ocaml: false }
    }

    /// Every grammar.
    pub fn all() -> (s: Self)
        ensures
            s == (GrammarSet { rust: true, python: true, ocaml: true }),
    {
        GrammarSet { rust: true, python: true, ocaml: true }
    }

    /// Whether `g` is among the grammars.
    pub fn contains(&self, g: Grammar) -> (b: bool)
        ensures
            b == self.has(g),
    {
        match g {
            Grammar::Rust => self.rust,
            Grammar::Python => self.python,
            Grammar::OCaml => self.ocaml,
        }
    }
}

/// The colored ranges of the captures, in order; every capture index must
/// name one of `names`.
pub fn highlights_from_captures(captures: &Vec<Capture>, names: &Vec<String>) -> (r: Vec<HighlightRange>)
    requires
        indices_below(captures@, names@.len()),
    ensures
        ranges_of(r@, captures@, strings_view(names@)),
{
    let mut out: Vec<HighlightRange> = Vec::new();
    let mut i: usize = 0;
    while i < captures.len()
        invariant
            i <= captures@.len(),
            out@.len() == i,
            indices_below(captures@, names@.len()),
            forall|k: int|
                0 <= k < i ==> (#[trigger] out@[k].start_byte, out@[k].end_byte, out@[k].color)
                    == range_of(captures@[k], strings_view(names@)),
        decreases captures@.len() - i,
    {
        let c = captures[i];
        assert(c.index < names@.len());
        let color = capture_color(names[c.index].as_str());
        assert(strings_view(names@)[c.index as int] == names@[c.index as int]@);
        out.push(HighlightRange { start_byte: c.start_byte, end_byte: c.end_byte, color });
        i = i + 1;
    }
    out
}

/// Whether every capture index is below `n`.
pub fn all_indices_below(captures: &Vec<Capture>, n: usize) -> (r: bool)
    ensures
        r == indices_below(captures@, n as nat),
{
    let mut i: usize = 0;
    while i < captures.len()
        invariant
            i <= captures@.len(),
            forall|k: int| 0 <= k < i ==> #[trigger] captures@[k].index < n,
        decreases captures@.len() - i,
    {
        if captures[i].index >= n {
            return false;
        }
        i = i + 1;
    }
    true
}

/// A language to highlight: its name, and its highlight query compiled for
/// its grammar.
pub struct LanguageConfig {
    pub name: String,
    query: GrammarQuery,
}

impl LanguageConfig {
    /// The name of the language.
    pub closed spec fn label(&self) -> Seq<char> {
        self.name@
    }

    /// The grammar of the configuration.
    pub closed spec fn grammar(&self) -> Grammar {
        self.query.grammar
    }

    /// The source its highlight query was compiled from.
    pub closed spec fn query_source(&self) -> Seq<char> {
        self.query.source@
    }

    /// A language named `name`, highlighted with `query_str` compiled as a
    /// query for `grammar`: a configuration exactly when the query compiles.
    pub fn new(name: &str, grammar: Grammar, query_str: &str) -> (r: Option<Self>)
        ensures
            r is Some == query_compiles(grammar, query_str@),
            r matches Some(c) ==> c.label() == name@ && c.grammar() == grammar && c.query_source()
                == query_str@,
    {
        match compile_query(grammar, query_str) {
            Some(query) => Some(Self { name: name.to_owned(), query }),
            None => None,
        }
    }
}

/// Colors text with the grammar that a file's extension chose, among the
/// grammars it can choose from.
pub struct Highlighter {
    parser: Option<GrammarParser>,
    current_config: Option<LanguageConfig>,
    grammars: GrammarSet,
}

impl Highlighter {
    /// The parser reads the grammar of the configuration, whose name and
    /// query are the grammar's own.
    #[verifier::type_invariant]
    spec fn well_formed(self) -> bool {
        match self.current_config {
            Some(c) => {
                &&& self.parser matches Some(p) && p.grammar == Some(c.query.grammar)
                &&& c.query.source@ == shipped_query(c.query.grammar)
                &&& c.name@ == grammar_name(c.query.grammar)
            },
            None => true,
        }
    }

    /// The grammar being highlighted with, if any.
    pub closed spec fn language(&self) -> Option<Grammar> {
        match self.current_config {
            Some(c) => Some(c.query.grammar),
            None => None,
        }
    }

    /// The grammars this highlighter can choose from.
    pub closed spec fn grammars(&self) -> GrammarSet {
        self.grammars
    }

    /// A highlighter of a plain build (Rust alone) with no language: it
    /// colors nothing.
    pub fn new() -> (h: Self)
        ensures
            h.language() is None,
            h.grammars() == GrammarSet::plain(),
    {
        Self::with_grammars(GrammarSet::rust_only())
    }

    /// A highlighter that can choose from `grammars`, with no language.
    pub fn with_grammars(grammars: GrammarSet) -> (h: Self)
        ensures
            h.language() is None,
            h.grammars() == grammars,
    {
        Self { parser: Some(new_parser()), current_config: None, grammars }
    }

    /// The grammars this highlighter can choose from.
    pub fn enabled_grammars(&self) -> (s: GrammarSet)
        ensures
            s == self.grammars(),
    {
        self.grammars
    }

    /// Chooses the language by file extension (`chosen_language`): the
    /// extension's grammar when it is among this highlighter's grammars and
    /// its shipped highlight query compiles; any other extension leaves no
    /// language.
    pub fn set_language_by_extension(&mut self, extension: &str)
        ensures
            final(self).language() == chosen_language(old(self).grammars(), extension@),
            final(self).grammars() == old(self).grammars(),
    {
        self.current_config = None;
        if let Some(g) = grammar_for(extension) {
            if self.grammars.contains(g) {
                let source = shipped_highlights(g);
                if let Some(cfg) = LanguageConfig::new(grammar_label(g), g, source) {
                    let mut held: Option<GrammarParser> = None;
                    std::mem::swap(&mut held, &mut self.parser);
                    let mut parser = match held {
                        Some(p) => p,
                        None => new_parser(),
                    };
                    set_parser_grammar(&mut parser, &cfg.query);
                    self.parser = Some(parser);
                    self.current_config = Some(cfg);
                }
            }
        }
    }

    /// The colored ranges of `text` (`highlighted`): every capture of the
    /// grammar's highlight query, colored by its name, each inside the text.
    /// No language gives no ranges.
    pub fn get_highlights(&mut self, text: &str) -> (r: Option<Vec<HighlightRange>>)
        ensures
            final(self).language() == old(self).language(),
            final(self).grammars() == old(self).grammars(),
            old(self).language() is None ==> (r matches Some(v) && v@.len() == 0),
            old(self).language() matches Some(g) ==> highlighted(g, text@, r),
            r matches Some(v) ==> forall|i: int|
                0 <= i < v@.len() ==> #[trigger] v@[i].start_byte <= v@[i].end_byte <= utf8_width(text@),
    {
        proof {
            use_type_invariant(&*self);
        }
        if self.current_config.is_none() {
            return Some(Vec::new());
        }
        let mut config: Option<LanguageConfig> = None;
        std::mem::swap(&mut config, &mut self.current_config);
        let mut held: Option<GrammarParser> = None;
        std::mem::swap(&mut held, &mut self.parser);
        let (cfg, mut parser) = match (config, held) {
            (Some(c), Some(p)) => (c, p),
            _ => {
                assert(false);
                return None;
            },
        };
        let tree = parse_text(&mut parser, text);
        let r = match tree {
            Some(t) => {
                let captures = captures_of(&cfg.query, &t, text);
                let names = capture_names_of(&cfg.query);
                if all_indices_below(&captures, names.len()) {
                    let v = highlights_from_captures(&captures, &names);
                    assert forall|i: int| 0 <= i < v@.len() implies #[trigger] v@[i].start_byte
                        <= v@[i].end_byte <= utf8_width(text@) by {
                        let c = captures@[i];
                        assert(c.start_byte <= c.end_byte);
                        assert(c.end_byte <= utf8_width(text@));
                        assert(v@[i].start_byte == c.start_byte);
                    }
                    Some(v)
                } else {
                    None
                }
            },
            None => None,
        };
        self.parser = Some(parser);
        self.current_config = Some(cfg);
        r
    }

    /// The name of the language being highlighted, if any.
    pub fn current_language_name(&self) -> (r: Option<&str>)
        ensures
            r is Some == self.language() is Some,
            r matches Some(s) ==> self.language() matches Some(g) && s@ == grammar_name(g),
    {
        proof {
            use_type_invariant(self);
        }
        match &self.current_config {
            Some(c) => Some(c.name.as_str()),
            None => None,
        }
    }
}

} // verus!
