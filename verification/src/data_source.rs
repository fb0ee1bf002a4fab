//! The system that a match was recorded by.

use vstd::prelude::*;

verus! {

/// Compares two texts as `str`'s `==` does: they are equal when they hold the
/// same characters in the same order.
#[verifier::external_body]
fn same_text(a: &str, b: &str) -> (r: bool)
    ensures
        r == (a@ == b@),
{
    a == b
}

/// Where a match comes from: one of the two sources that the service knows by
/// name, or any other, kept as the text that names it.
#[derive(Debug, PartialEq, Eq, Hash)]
pub enum DataSource {
    FACEIT,
    Matchmaking,
    Other(String),
}

/// What a [`DataSource`] stands for.
pub enum DataSourceView {
    Faceit,
    Matchmaking,
    Other(Seq<char>),
}

impl DataSourceView {
    /// The canonical text of a data source: the one form in which it is sent
    /// and in which it is read.
    pub open spec fn canonical(self) -> Seq<char> {
        match self {
            DataSourceView::Faceit => "faceit"@,
            DataSourceView::Matchmaking => "matchmaking"@,
            DataSourceView::Other(text) => text,
        }
    }

    /// The data source that a text names. Every text names one: a text that
    /// is not the name of a known source is a source of its own.
    pub open spec fn parse(text: Seq<char>) -> DataSourceView {
        if text == "faceit"@ {
            DataSourceView::Faceit
        } else if text == "matchmaking"@ {
            DataSourceView::Matchmaking
        } else {
            DataSourceView::Other(text)
        }
    }

    /// Whether this is the value that [`DataSourceView::parse`] gives for
    /// its canonical text. Only `Other` with the name of a known source is
    /// not.
    pub open spec fn is_normal(self) -> bool {
        self matches DataSourceView::Other(text) ==> text != "faceit"@ && text != "matchmaking"@
    }
}

impl View for DataSource {
    type V = DataSourceView;

    open spec fn view(&self) -> DataSourceView {
        match self {
            DataSource::FACEIT => DataSourceView::Faceit,
            DataSource::Matchmaking => DataSourceView::Matchmaking,
            DataSource::Other(text) => DataSourceView::Other(text@),
        }
    }
}

impl Clone for DataSource {
    fn clone(&self) -> (r: Self)
        ensures
            r@ == self@,
    {
        match self {
            DataSource::FACEIT => DataSource::FACEIT,
            DataSource::Matchmaking => DataSource::Matchmaking,
            DataSource::Other(text) => DataSource::Other(text.clone()),
        }
    }
}

impl DataSource {
    /// The canonical text of the data source.
    pub fn as_str(&self) -> (r: &str)
        ensures
            r@ == self@.canonical(),
    {
        match self {
            DataSource::FACEIT => "faceit",
            DataSource::Matchmaking => "matchmaking",
            DataSource::Other(text) => text.as_str(),
        }
    }
}

impl From<String> for DataSource {
    fn from(value: String) -> (r: Self)
        ensures
            r@ == DataSourceView::parse(value@),
    {
        if same_text(value.as_str(), "faceit") {
            DataSource::FACEIT
        } else if same_text(value.as_str(), "matchmaking") {
            DataSource::Matchmaking
        } else {
            DataSource::Other(value)
        }
    }
}

impl vstd::std_specs::convert::FromSpecImpl<String> for DataSource {
    open spec fn obeys_from_spec() -> bool {
        true
    }

    open spec fn from_spec(value: String) -> Self {
        if value@ == "faceit"@ {
            DataSource::FACEIT
        } else if value@ == "matchmaking"@ {
            DataSource::Matchmaking
        } else {
            DataSource::Other(value)
        }
    }
}

impl<'a> From<&'a str> for DataSource {
    fn from(value: &'a str) -> (r: Self)
        ensures
            r@ == DataSourceView::parse(value@),
    {
        if same_text(value, "faceit") {
            DataSource::FACEIT
        } else if same_text(value, "matchmaking") {
            DataSource::Matchmaking
        } else {
            DataSource::Other(value.to_owned())
        }
    }
}

impl<'a> vstd::std_specs::convert::FromSpecImpl<&'a str> for DataSource {
    /// A fresh `String` has no name in specifications, so the result is
    /// stated by the `ensures` of `from` and not by `from_spec`.
    open spec fn obeys_from_spec() -> bool {
        false
    }

    open spec fn from_spec(value: &'a str) -> Self {
        arbitrary()
    }
}

/// Reading a text and writing the result out again gives the text back,
/// whatever the text is.
pub proof fn lemma_canonical_of_parsed(text: Seq<char>)
    ensures
        DataSourceView::parse(text).canonical() == text,
{
}

/// Writing a data source out and reading the text again gives the data source
/// back, except for `Other` with the name of a known source, which is read as
/// that source.
pub proof fn lemma_parse_of_canonical(source: DataSourceView)
    ensures
        DataSourceView::parse(source.canonical()) == source <==> source.is_normal(),
        DataSourceView::parse(source.canonical()).is_normal(),
{
    reveal_strlit("faceit");
    reveal_strlit("matchmaking");
    assert("faceit"@.len() != "matchmaking"@.len());
}

} // verus!
