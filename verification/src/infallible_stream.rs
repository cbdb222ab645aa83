use vstd::prelude::*;
use vstd::std_specs::convert::FromSpecImpl;

verus! {

/// Wraps a stream of results into a stream of items that ends as soon as the
/// underlying stream yields an error.
pub struct InfallibleStream<FallibleStream> {
    pub stream: FallibleStream,
}

impl<FallibleStream> From<FallibleStream> for InfallibleStream<FallibleStream> {
    fn from(stream: FallibleStream) -> (wrapped: Self) {
        InfallibleStream { stream }
    }
}

impl<FallibleStream> FromSpecImpl<FallibleStream> for InfallibleStream<FallibleStream> {
    open spec fn obeys_from_spec() -> bool {
        true
    }

    open spec fn from_spec(stream: FallibleStream) -> Self {
        InfallibleStream { stream }
    }
}

/// What one item of the underlying stream becomes.
#[derive(Debug)]
pub enum StreamStep<Item, Error> {
    /// Hand on this item.
    Item(Item),
    /// The underlying stream failed with this error; the stream ends here.
    Failed(Error),
    /// The underlying stream ended.
    Ended,
}

impl<FallibleStream> InfallibleStream<FallibleStream> {
    /// Decides what an item of the underlying stream becomes: its value is handed
    /// on, an error ends the stream, and so does the end of the underlying stream.
    pub fn step<Item, Error>(next: Option<Result<Item, Error>>) -> (step: StreamStep<Item, Error>)
        ensures
            match next {
                Some(Ok(item)) => step == StreamStep::<Item, Error>::Item(item),
                Some(Err(error)) => step == StreamStep::<Item, Error>::Failed(error),
                None => step == StreamStep::<Item, Error>::Ended,
            },
    {
        match next {
            Some(Ok(item)) => StreamStep::Item(item),
            Some(Err(error)) => StreamStep::Failed(error),
            None => StreamStep::Ended,
        }
    }

    /// What the stream yields for an item of the underlying stream.
    pub fn next_item<Item, Error>(next: Option<Result<Item, Error>>) -> (item: Option<Item>)
        ensures
            match next {
                Some(Ok(value)) => item == Some(value),
                _ => item is None,
            },
    {
        match Self::step(next) {
            StreamStep::Item(item) => Some(item),
            StreamStep::Failed(_) => None,
            StreamStep::Ended => None,
        }
    }
}

} // verus!
