//! The catalog as the browser holds it: rows of videos, each row with the
//! place that was last selected in it, each video with the content it was
//! bound to when it was first opened.

use vstd::prelude::*;

verus! {

/// One tile of the grid.
#[derive(Clone, Debug)]
pub struct Video {
    pub display_name: String,
    pub thumbnail_url: String,
    /// Index into the content registry, once the video has been opened.
    pub content_binding: Option<usize>,
}

/// A named row of videos.
#[derive(Clone, Debug)]
pub struct Collection {
    pub name: String,
    pub videos: Vec<Video>,
    /// The place in `videos` that is, or was last, selected.
    pub selected_index: usize,
}

pub ghost struct VideoView {
    pub display_name: Seq<char>,
    pub thumbnail_url: Seq<char>,
    pub content_binding: Option<nat>,
}

pub ghost struct CollectionView {
    pub name: Seq<char>,
    pub videos: Seq<VideoView>,
    pub selected_index: nat,
}

impl View for Video {
    type V = VideoView;

    open spec fn view(&self) -> VideoView {
        VideoView {
            display_name: self.display_name@,
            thumbnail_url: self.thumbnail_url@,
            content_binding: match self.content_binding {
                Some(i) => Some(i as nat),
                None => None,
            },
        }
    }
}

/// The videos of a row, each by its view.
pub open spec fn videos_view(videos: Seq<Video>) -> Seq<VideoView> {
    Seq::new(videos.len(), |i: int| videos[i]@)
}

impl View for Collection {
    type V = CollectionView;

    open spec fn view(&self) -> CollectionView {
        CollectionView {
            name: self.name@,
            videos: videos_view(self.videos@),
            selected_index: self.selected_index as nat,
        }
    }
}

/// The rows of a catalog, each by its view.
pub open spec fn catalog_view(rows: Seq<Collection>) -> Seq<CollectionView> {
    Seq::new(rows.len(), |i: int| rows[i]@)
}

impl CollectionView {
    /// The selected place exists: it is a place of the row, or the row is
    /// empty and the place is the first.
    pub open spec fn selection_in_range(self) -> bool {
        if self.videos.len() == 0 {
            self.selected_index == 0
        } else {
            self.selected_index < self.videos.len()
        }
    }

    /// Every binding of the row points into a registry of `registry_size`
    /// entries.
    pub open spec fn bindings_in_range(self, registry_size: nat) -> bool {
        forall|i: int|
            0 <= i < self.videos.len() ==> (#[trigger] self.videos[i].content_binding matches Some(
                b,
            ) ==> b < registry_size)
    }
}

/// What the browser asks of a catalog: in every row the selected place exists
/// and the bindings point into the registry.
pub open spec fn catalog_fits(rows: Seq<CollectionView>, registry_size: nat) -> bool {
    forall|r: int|
        0 <= r < rows.len() ==> (#[trigger] rows[r]).selection_in_range()
            && rows[r].bindings_in_range(registry_size)
}

impl Video {
    /// A video that has never been opened.
    pub fn new(display_name: String, thumbnail_url: String) -> (r: Video)
        ensures
            r@ == (VideoView {
                display_name: display_name@,
                thumbnail_url: thumbnail_url@,
                content_binding: None,
            }),
    {
        Video { display_name, thumbnail_url, content_binding: None }
    }
}

impl Collection {
    /// A row with its first place selected.
    pub fn new(name: String, videos: Vec<Video>) -> (r: Collection)
        ensures
            r@ == (CollectionView {
                name: name@,
                videos: videos_view(videos@),
                selected_index: 0,
            }),
            r@.selection_in_range(),
    {
        Collection { name, videos, selected_index: 0 }
    }

    /// Whether the row meets [`catalog_fits`] for its part.
    pub fn fits(&self, registry_size: usize) -> (r: bool)
        ensures
            r == (self@.selection_in_range() && self@.bindings_in_range(registry_size as nat)),
    {
        let in_range: bool = if self.videos.len() == 0 {
            self.selected_index == 0
        } else {
            self.selected_index < self.videos.len()
        };
        if !in_range {
            return false;
        }
        let mut i: usize = 0;
        while i < self.videos.len()
            invariant
                i <= self.videos.len(),
                forall|k: int|
                    0 <= k < i ==> (#[trigger] self@.videos[k].content_binding matches Some(b)
                        ==> b < registry_size),
            decreases self.videos.len() - i,
        {
            match self.videos[i].content_binding {
                Some(b) => {
                    if b >= registry_size {
                        assert(self@.videos[i as int].content_binding == Some(b as nat));
                        return false;
                    }
                },
                None => {},
            }
            i += 1;
        }
        true
    }
}

/// Whether `rows` meet [`catalog_fits`].
pub fn catalog_is_fit(rows: &Vec<Collection>, registry_size: usize) -> (r: bool)
    ensures
        r == catalog_fits(catalog_view(rows@), registry_size as nat),
{
    let mut r: usize = 0;
    while r < rows.len()
        invariant
            r <= rows.len(),
            forall|k: int|
                0 <= k < r ==> (#[trigger] catalog_view(rows@)[k]).selection_in_range()
                    && catalog_view(rows@)[k].bindings_in_range(registry_size as nat),
        decreases rows.len() - r,
    {
        if !rows[r].fits(registry_size) {
            assert(catalog_view(rows@)[r as int] == rows[r as int]@);
            return false;
        }
        r += 1;
    }
    true
}

/// Hands out the indices of a registry of `size` entries in turn, starting
/// over after the last, without end.
#[derive(Clone, Copy, Debug)]
pub struct ContentCycle {
    size: usize,
    next: usize,
}

impl ContentCycle {
    pub closed spec fn size(self) -> nat {
        self.size as nat
    }

    /// The index that the next call of [`ContentCycle::next_index`] returns,
    /// where the registry has any.
    pub closed spec fn upcoming(self) -> nat {
        self.next as nat
    }

    pub closed spec fn wf(self) -> bool {
        if self.size == 0 {
            self.next == 0
        } else {
            self.next < self.size
        }
    }

    /// A cycle that starts at the first entry.
    pub fn new(size: usize) -> (r: ContentCycle)
        ensures
            r.wf(),
            r.size() == size,
            r.upcoming() == 0,
    {
        ContentCycle { size, next: 0 }
    }

    pub fn registry_size(&self) -> (r: usize)
        ensures
            r == self.size(),
    {
        self.size
    }

    /// The next index of the cycle; `None` where the registry is empty.
    pub fn next_index(&mut self) -> (r: Option<usize>)
        requires
            old(self).wf(),
        ensures
            final(self).wf(),
            final(self).size() == old(self).size(),
            old(self).size() == 0 ==> r is None && *final(self) == *old(self),
            old(self).size() > 0 ==> r == Some(old(self).upcoming() as usize)
                && final(self).upcoming() == (old(self).upcoming() + 1) % old(self).size(),
    {
        if self.size == 0 {
            None
        } else {
            let current: usize = self.next;
            self.next = if current + 1 == self.size {
                0
            } else {
                current + 1
            };
            assert((current + 1) % (self.size as int) == self.next) by {
                if current + 1 == self.size {
                    assert((self.size as int) % (self.size as int) == 0) by (nonlinear_arith)
                        requires
                            self.size > 0,
                    ;
                } else {
                    vstd::arithmetic::div_mod::lemma_small_mod(
                        (current + 1) as nat,
                        self.size as nat,
                    );
                }
            }
            Some(current)
        }
    }
}

} // verus!
