use vstd::prelude::*;

verus! {

/// A parse failure: the first message says what went wrong, each later one
/// the context in which it happened, innermost first.
#[derive(Debug)]
pub struct ParserError {
    pub property_list: Vec<String>,
}

impl View for ParserError {
    type V = Seq<Seq<char>>;

    open spec fn view(&self) -> Seq<Seq<char>> {
        self.property_list.deep_view()
    }
}

pub type ParserResult<T> = Result<T, ParserError>;

impl ParserError {
    /// An error with a single message.
    pub fn new(start: String) -> (e: Self)
        ensures
            e@ == seq![start@],
    {
        let mut property_list = Vec::new();
        property_list.push(start);
        let e = ParserError { property_list };
        assert(e@ =~= seq![start@]);
        e
    }

    /// The same error with one more message of context at the end.
    pub fn add(error: ParserError, property: String) -> (e: Self)
        ensures
            e@ == error@.push(property@),
    {
        let ghost before = error@;
        let mut error = error;
        error.property_list.push(property);
        assert(error@ =~= before.push(property@));
        error
    }

    /// The messages, innermost first.
    pub fn get_properties(&self) -> (r: &Vec<String>)
        ensures
            r.deep_view() == self@,
    {
        &self.property_list
    }
}

} // verus!
