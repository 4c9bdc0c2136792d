//! Image-generation responses.

use vstd::prelude::*;

verus! {

/// One generated image's address.
#[derive(Debug, PartialEq, Clone)]
pub struct Url {
    pub url: String,
}

/// A content-moderation note attached to a generation.
#[derive(Debug, PartialEq, Clone)]
pub struct ContentFilter {
    pub role: String,
    pub level: usize,
}

/// A complete image-generation answer.
#[derive(Debug, PartialEq)]
pub struct ImagesChatApiResponse {
    pub created: usize,
    pub data: Vec<Url>,
    pub content_filter: Option<Vec<ContentFilter>>,
}

impl ImagesChatApiResponse {
    /// The addresses of all generated images, in order.
    pub fn urls(&self) -> (r: Vec<String>)
        ensures
            r@.len() == self.data@.len(),
            forall|i: int| 0 <= i < r@.len() ==> r@[i]@ == self.data@[i].url@,
    {
        let mut out: Vec<String> = Vec::new();
        let n = self.data.len();
        let mut i: usize = 0;
        while i < n
            invariant
                n == self.data@.len(),
                0 <= i <= n,
                out@.len() == i,
                forall|k: int| 0 <= k < i ==> out@[k]@ == self.data@[k].url@,
            decreases n - i,
        {
            out.push(self.data[i].url.clone());
            i = i + 1;
        }
        out
    }

    /// The moderation notes, empty when there are none.
    pub fn content_filter(&self) -> (r: &[ContentFilter])
        ensures
            match self.content_filter {
                Some(cf) => r@ == cf@,
                None => r@.len() == 0,
            },
    {
        match &self.content_filter {
            Some(cf) => cf.as_slice(),
            None => &[],
        }
    }
}

} // verus!
