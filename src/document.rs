//! A parsed page as a flat list of nodes, and the extraction of image links
//! from the page's content region.
use vstd::prelude::*;
use crate::file::{normalize_url, File, SITE_ORIGIN};
use crate::text::equals;

verus! {

/// The tag of the element that holds a thread's replies.
pub const CONTAINER_TAG: &'static str = "form";

/// The tag of the container's parent.
pub const CONTAINER_PARENT_TAG: &'static str = "body";

/// The container's position among its parent's element children, counted from 1.
/// This follows the site's current markup and breaks when that markup changes.
pub const CONTAINER_POSITION: usize = 13;

/// The tag of a hyperlink.
pub const LINK_TAG: &'static str = "a";

/// The tag of an image.
pub const IMAGE_TAG: &'static str = "img";

/// One node of a parsed page.
#[derive(Debug)]
pub struct Node {
    /// The index of the parent node, if any.
    pub parent: Option<usize>,
    /// The tag name of an element; `None` for a node that is not an element.
    pub tag: Option<String>,
    /// The element's `href` attribute, if it has one.
    pub href: Option<String>,
}

/// A parsed page: its nodes in document order.
#[derive(Debug)]
pub struct Document {
    pub nodes: Vec<Node>,
}

/// Whether node `i` is an element with tag `name`.
pub open spec fn has_tag(nodes: Seq<Node>, i: int, name: Seq<char>) -> bool {
    0 <= i < nodes.len() && match nodes[i].tag {
        Some(t) => t@ == name,
        None => false,
    }
}

/// Whether node `i` is an element whose parent is node `p`.
pub open spec fn is_element_child(nodes: Seq<Node>, i: int, p: int) -> bool {
    0 <= i < nodes.len() && nodes[i].tag is Some && match nodes[i].parent {
        Some(q) => q == p,
        None => false,
    }
}

/// The number of element children of `p` among the first `k` nodes.
pub open spec fn element_children_before(nodes: Seq<Node>, p: int, k: int) -> nat
    decreases k,
{
    if k <= 0 {
        0
    } else {
        element_children_before(nodes, p, k - 1) + if is_element_child(nodes, k - 1, p) {
            1nat
        } else {
            0nat
        }
    }
}

/// Whether node `i` is the content region: a `form` that is the thirteenth
/// element child of a `body`.
pub open spec fn is_container(nodes: Seq<Node>, i: int) -> bool {
    0 <= i < nodes.len() && has_tag(nodes, i, CONTAINER_TAG@) && match nodes[i].parent {
        Some(p) => has_tag(nodes, p as int, CONTAINER_PARENT_TAG@) && element_children_before(
            nodes,
            p as int,
            i,
        ) + 1 == CONTAINER_POSITION,
        None => false,
    }
}

/// The first content region among the first `k` nodes.
pub open spec fn first_container(nodes: Seq<Node>, k: int) -> Option<int>
    decreases k,
{
    if k <= 0 {
        None
    } else {
        match first_container(nodes, k - 1) {
            Some(c) => Some(c),
            None => if is_container(nodes, k - 1) {
                Some(k - 1)
            } else {
                None
            },
        }
    }
}

/// Whether node `j` lies below node `a`, following parent links.
pub open spec fn is_descendant(nodes: Seq<Node>, j: int, a: int) -> bool
    decreases j,
{
    if 0 <= j < nodes.len() {
        match nodes[j].parent {
            Some(p) => p == a || (p < j && is_descendant(nodes, p as int, a)),
            None => false,
        }
    } else {
        false
    }
}

/// Whether node `j` is a link with an image among its direct children.
pub open spec fn is_image_link(nodes: Seq<Node>, j: int) -> bool {
    has_tag(nodes, j, LINK_TAG@) && exists|k: int|
        #![trigger nodes[k]]
        0 <= k < nodes.len() && nodes[k].parent == Some(j as usize) && has_tag(
            nodes,
            k,
            IMAGE_TAG@,
        )
}

/// The `href` of node `j`, empty where it has none.
pub open spec fn href_of(nodes: Seq<Node>, j: int) -> Seq<char> {
    match nodes[j].href {
        Some(h) => h@,
        None => Seq::empty(),
    }
}

/// The absolute, normalized target of link `j`.
pub open spec fn link_url(nodes: Seq<Node>, j: int) -> Seq<char> {
    normalize_url(SITE_ORIGIN@ + href_of(nodes, j))
}

/// The targets of the image links below node `c` among the first `k` nodes, in order.
pub open spec fn image_urls_before(nodes: Seq<Node>, c: int, k: int) -> Seq<Seq<char>>
    decreases k,
{
    if k <= 0 {
        Seq::empty()
    } else if is_descendant(nodes, k - 1, c) && is_image_link(nodes, k - 1) {
        image_urls_before(nodes, c, k - 1).push(link_url(nodes, k - 1))
    } else {
        image_urls_before(nodes, c, k - 1)
    }
}

/// The targets of the image links in the content region, in document order;
/// empty where the page has no content region.
pub open spec fn image_urls(nodes: Seq<Node>) -> Seq<Seq<char>> {
    match first_container(nodes, nodes.len() as int) {
        Some(c) => image_urls_before(nodes, c, nodes.len() as int),
        None => Seq::empty(),
    }
}

/// The URLs of a sequence of files.
pub open spec fn urls_of(files: Seq<File>) -> Seq<Seq<char>> {
    files.map_values(|f: File| f.url@)
}

fn node_has_tag(node: &Node, name: &str) -> (r: bool)
    ensures
        r == match node.tag {
            Some(t) => t@ == name@,
            None => false,
        },
{
    match &node.tag {
        Some(t) => equals(t.as_str(), name),
        None => false,
    }
}

impl Document {
    /// The number of element children of `p` before node `i`.
    fn element_children_before(&self, p: usize, i: usize) -> (r: usize)
        requires
            i <= self.nodes@.len(),
        ensures
            r == element_children_before(self.nodes@, p as int, i as int),
    {
        let mut k: usize = 0;
        let mut count: usize = 0;
        while k < i
            invariant
                i <= self.nodes@.len(),
                k <= i,
                count == element_children_before(self.nodes@, p as int, k as int),
                count <= k,
            decreases i - k,
        {
            let node = &self.nodes[k];
            if node.tag.is_some() && node.parent == Some(p) {
                count = count + 1;
            }
            k = k + 1;
        }
        count
    }

    fn is_container(&self, i: usize) -> (r: bool)
        requires
            i < self.nodes@.len(),
        ensures
            r == is_container(self.nodes@, i as int),
    {
        let node = &self.nodes[i];
        if !node_has_tag(node, CONTAINER_TAG) {
            return false;
        }
        match node.parent {
            Some(p) => {
                if p >= self.nodes.len() || !node_has_tag(&self.nodes[p], CONTAINER_PARENT_TAG) {
                    false
                } else {
                    self.element_children_before(p, i) == CONTAINER_POSITION - 1
                }
            },
            None => false,
        }
    }

    /// The index of the content region, the first node in document order that
    /// is a `form` and the thirteenth element child of a `body`.
    pub fn find_container(&self) -> (r: Option<usize>)
        ensures
            r is None <==> first_container(self.nodes@, self.nodes@.len() as int) is None,
            r matches Some(c) ==> first_container(self.nodes@, self.nodes@.len() as int) == Some(
                c as int,
            ),
    {
        let n = self.nodes.len();
        let mut i: usize = 0;
        while i < n
            invariant
                n == self.nodes@.len(),
                i <= n,
                first_container(self.nodes@, i as int) is None,
            decreases n - i,
        {
            if self.is_container(i) {
                proof {
                    lemma_first_container_stays(self.nodes@, i as int + 1, n as int);
                }
                return Some(i);
            }
            i = i + 1;
        }
        None
    }

    /// Whether node `j` lies below node `a`.
    pub fn is_descendant(&self, j: usize, a: usize) -> (r: bool)
        requires
            j < self.nodes@.len(),
        ensures
            r == is_descendant(self.nodes@, j as int, a as int),
    {
        let mut cur: usize = j;
        loop
            invariant
                cur < self.nodes@.len(),
                is_descendant(self.nodes@, j as int, a as int) == is_descendant(
                    self.nodes@,
                    cur as int,
                    a as int,
                ),
            decreases cur,
        {
            match self.nodes[cur].parent {
                Some(p) => {
                    if p == a {
                        return true;
                    }
                    if p >= cur {
                        return false;
                    }
                    cur = p;
                },
                None => {
                    return false;
                },
            }
        }
    }

    /// Whether node `j` is a link with an image among its direct children.
    pub fn is_image_link(&self, j: usize) -> (r: bool)
        requires
            j < self.nodes@.len(),
        ensures
            r == is_image_link(self.nodes@, j as int),
    {
        if !node_has_tag(&self.nodes[j], LINK_TAG) {
            return false;
        }
        let n = self.nodes.len();
        let mut k: usize = 0;
        while k < n
            invariant
                n == self.nodes@.len(),
                k <= n,
                has_tag(self.nodes@, j as int, LINK_TAG@),
                forall|m: int|
                    #![trigger self.nodes@[m]]
                    0 <= m < k ==> !(self.nodes@[m].parent == Some(j) && has_tag(
                        self.nodes@,
                        m,
                        IMAGE_TAG@,
                    )),
            decreases n - k,
        {
            let node = &self.nodes[k];
            if node.parent == Some(j) && node_has_tag(node, IMAGE_TAG) {
                assert(self.nodes@[k as int].parent == Some(j) && has_tag(
                    self.nodes@,
                    k as int,
                    IMAGE_TAG@,
                ));
                return true;
            }
            k = k + 1;
        }
        false
    }

    /// The absolute, normalized target of link `j`.
    fn link_file(&self, j: usize) -> (r: File)
        requires
            j < self.nodes@.len(),
        ensures
            r.url@ == link_url(self.nodes@, j as int),
    {
        let href = match &self.nodes[j].href {
            Some(h) => h.as_str(),
            None => "",
        };
        proof {
            reveal_strlit("");
        }
        File::new(String::from_str(SITE_ORIGIN).concat(href))
    }

    /// The files that the image links of the content region point to, in
    /// document order; none where the page has no content region.
    pub fn image_files(&self) -> (r: Vec<File>)
        ensures
            urls_of(r@) == image_urls(self.nodes@),
    {
        let mut out: Vec<File> = Vec::new();
        match self.find_container() {
            None => {
                assert(urls_of(out@) =~= image_urls(self.nodes@));
                out
            },
            Some(c) => {
                let n = self.nodes.len();
                let mut j: usize = 0;
                while j < n
                    invariant
                        n == self.nodes@.len(),
                        j <= n,
                        urls_of(out@) == image_urls_before(self.nodes@, c as int, j as int),
                    decreases n - j,
                {
                    if self.is_descendant(j, c) && self.is_image_link(j) {
                        let f = self.link_file(j);
                        let ghost before = out@;
                        out.push(f);
                        assert(urls_of(out@) =~= urls_of(before).push(f.url@));
                    }
                    j = j + 1;
                }
                assert(first_container(self.nodes@, n as int) == Some(c as int));
                out
            },
        }
    }
}

proof fn lemma_first_container_stays(nodes: Seq<Node>, k: int, n: int)
    requires
        0 < k <= n,
        first_container(nodes, k - 1) is None,
        is_container(nodes, k - 1),
    ensures
        first_container(nodes, n) == Some(k - 1),
    decreases n - k,
{
    if n > k {
        lemma_first_container_stays(nodes, k, n - 1);
    }
}

} // verus!
