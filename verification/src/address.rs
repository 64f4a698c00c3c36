use vstd::prelude::*;

verus! {

#[verifier::external_type_specification]
#[verifier::external_body]
pub struct ExUrl(url::Url);

/// What `url::Url::parse` reports for the given text: `None` where the text parses as an
/// absolute URL, else `Some` of the display text of the `url::ParseError` it returns.
/// The outcome depends on the text alone.
pub uninterp spec fn url_parse_failure(input: Seq<char>) -> Option<Seq<char>>;

/// The `url::Url` that `url::Url::parse` returns for the given text, where it succeeds.
/// Like the failure, the parsed value depends on the text alone.
pub uninterp spec fn parsed_url_value(input: Seq<char>) -> url::Url;

/// Whether the text parses as an absolute URL.
pub open spec fn parses_as_url(input: Seq<char>) -> bool {
    url_parse_failure(input) is None
}

/// The message with which a text that is no URL is refused.
pub open spec fn invalid_url_message(input: Seq<char>) -> Seq<char> {
    "Invalid URL: "@ + url_parse_failure(input)->0
}

/// Calls `url::Url::parse` on the text. Trusted: the call succeeds exactly where
/// `url_parse_failure` is `None`; where it succeeds it returns the value that
/// `parsed_url_value` names, and where it fails the error's display text is the one that
/// `url_parse_failure` names.
#[verifier::external_body]
fn parse_url_text(input: &str) -> (r: Result<url::Url, String>)
    ensures
        r is Ok <==> url_parse_failure(input@) is None,
        r matches Ok(u) ==> u == parsed_url_value(input@),
        r matches Err(m) ==> url_parse_failure(input@) == Some(m@),
{
    match url::Url::parse(input) {
        Ok(u) => Ok(u),
        Err(e) => Err(e.to_string()),
    }
}

/// An absolute URL, together with the text that it was parsed from.
pub struct ParsedUrl {
    url: url::Url,
    text: String,
}

impl View for ParsedUrl {
    type V = Seq<char>;

    /// A parsed URL is seen as the text it was parsed from.
    closed spec fn view(&self) -> Seq<char> {
        self.text@
    }
}

impl ParsedUrl {
    #[verifier::type_invariant]
    closed spec fn text_parses(self) -> bool {
        &&& parses_as_url(self.text@)
        &&& self.url == parsed_url_value(self.text@)
    }

    /// Parses the text as an absolute URL. Fails, with `Invalid URL: ` and the parser's
    /// message, exactly where the parser refuses the text.
    pub fn parse(input: &str) -> (r: Result<ParsedUrl, String>)
        ensures
            r is Ok <==> parses_as_url(input@),
            r matches Ok(p) ==> p@ == input@,
            r matches Err(m) ==> m@ == invalid_url_message(input@),
    {
        match parse_url_text(input) {
            Ok(url) => {
                let text = String::from_str(input);
                Ok(ParsedUrl { url, text })
            },
            Err(reason) => {
                let mut message = String::from_str("Invalid URL: ");
                message.append(reason.as_str());
                Err(message)
            },
        }
    }

    /// The parsed URL, to hand to the Miniflux client: the parse of the text it came from.
    pub fn url(&self) -> (r: &url::Url)
        ensures
            *r == parsed_url_value(self@),
    {
        proof {
            use_type_invariant(self);
        }
        &self.url
    }

    /// The text that the URL was parsed from.
    pub fn as_str(&self) -> (r: &str)
        ensures
            r@ == self@,
    {
        self.text.as_str()
    }
}

} // verus!
