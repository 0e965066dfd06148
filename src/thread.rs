//! Threads: their address on the site and the images they hold.
use vstd::prelude::*;
use crate::board::{board_segment, Board};
use crate::document::{image_urls, urls_of, Document};
use crate::file::{File, SITE_ORIGIN};
use crate::text::{decimal, decimal_string};

verus! {

/// Why a thread page could not be fetched.
#[derive(Debug)]
pub enum FetchError {
    /// The request or the reading of the page failed.
    Network(String),
    /// The site answered with a status other than success.
    Http(u16),
}

/// The address of thread `id` on `board`:
/// `<origin>/<board segment>/thread/<id>.html`.
pub open spec fn thread_url_spec(board: Board, id: nat) -> Seq<char> {
    SITE_ORIGIN@ + "/"@ + board_segment(board) + "/thread/"@ + decimal(id) + ".html"@
}

/// Whether an HTTP status code reports success.
pub open spec fn is_success_status(status: u16) -> bool {
    200 <= status < 300
}

/// A discussion thread, with the page it was read from.
#[derive(Debug)]
pub struct Thread {
    pub board: Board,
    pub id: u64,
    pub html: Document,
}

impl Thread {
    /// The address of thread `id` on `board`.
    pub fn url(board: Board, id: u64) -> (r: String)
        ensures
            r@ == thread_url_spec(board, id as nat),
    {
        let r = String::from_str(SITE_ORIGIN).concat("/").concat(board.as_str()).concat(
            "/thread/",
        ).concat(decimal_string(id).as_str()).concat(".html");
        r
    }

    /// The outcome of a page request that was answered with `status`.
    pub fn check_status(status: u16) -> (r: Result<(), FetchError>)
        ensures
            is_success_status(status) <==> r is Ok,
            !is_success_status(status) ==> (r matches Err(FetchError::Http(s)) && s == status),
    {
        if 200 <= status && status < 300 {
            Ok(())
        } else {
            Err(FetchError::Http(status))
        }
    }

    /// A thread read from its parsed page.
    pub fn from_document(board: Board, id: u64, html: Document) -> (r: Thread)
        ensures
            r.board == board,
            r.id == id,
            r.html == html,
    {
        Thread { board, id, html }
    }

    /// The files that the thread's image links point to, in document order.
    pub fn get_images(&self) -> (r: Vec<File>)
        ensures
            urls_of(r@) == image_urls(self.html.nodes@),
    {
        self.html.image_files()
    }
}

} // verus!
