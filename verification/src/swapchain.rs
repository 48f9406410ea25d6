use std::collections::VecDeque;
use vstd::prelude::*;
use vstd::multiset::Multiset;
use vstd::seq_lib::lemma_multiset_commutative;

use crate::error::Error;

verus! {

broadcast use vstd::seq_lib::group_to_multiset_ensures;

/// Creation flag bit asking for a single static image instead of a ring.
pub const SWAPCHAIN_CREATE_STATIC_IMAGE_BIT: u64 = 2;

/// Ring size of a non-static swapchain.
pub const SWAPCHAIN_RING_IMAGE_COUNT: usize = 3;

/// Whether `format` is one of the ten renderable formats the simulated
/// device supports: the 24-bit and 32-bit RGB(A) unorm, snorm, uint,
/// sint and sRGB formats, by their standard numeric values.
pub open spec fn spec_format_supported(format: i64) -> bool {
    ||| format == 23
    ||| format == 24
    ||| format == 27
    ||| format == 28
    ||| format == 29
    ||| format == 37
    ||| format == 38
    ||| format == 41
    ||| format == 42
    ||| format == 43
}

/// The supported swapchain formats, in the order they are enumerated.
pub open spec fn spec_supported_formats() -> Seq<i64> {
    seq![23i64, 24i64, 27i64, 28i64, 29i64, 37i64, 38i64, 41i64, 42i64, 43i64]
}

/// The enumerated format list holds exactly the supported formats.
pub proof fn lemma_supported_formats_complete()
    ensures
        forall|f: i64| spec_supported_formats().contains(f) <==> spec_format_supported(f),
{
    assert forall|f: i64| spec_supported_formats().contains(f) <==> spec_format_supported(f) by {
        if spec_format_supported(f) {
            if f == 23 {
                assert(spec_supported_formats()[0] == f);
            } else if f == 24 {
                assert(spec_supported_formats()[1] == f);
            } else if f == 27 {
                assert(spec_supported_formats()[2] == f);
            } else if f == 28 {
                assert(spec_supported_formats()[3] == f);
            } else if f == 29 {
                assert(spec_supported_formats()[4] == f);
            } else if f == 37 {
                assert(spec_supported_formats()[5] == f);
            } else if f == 38 {
                assert(spec_supported_formats()[6] == f);
            } else if f == 41 {
                assert(spec_supported_formats()[7] == f);
            } else if f == 42 {
                assert(spec_supported_formats()[8] == f);
            } else {
                assert(spec_supported_formats()[9] == f);
            }
        }
    }
}

/// Whether `format` is in the supported format list.
pub fn format_supported(format: i64) -> (r: bool)
    ensures
        r == spec_format_supported(format),
{
    format == 23 || format == 24 || format == 27 || format == 28 || format == 29 || format == 37
        || format == 38 || format == 41 || format == 42 || format == 43
}

/// The supported format list as a value, for enumeration.
pub fn supported_formats() -> (r: Vec<i64>)
    ensures
        r@ =~= spec_supported_formats(),
{
    let mut v: Vec<i64> = Vec::new();
    v.push(23);
    v.push(24);
    v.push(27);
    v.push(28);
    v.push(29);
    v.push(37);
    v.push(38);
    v.push(41);
    v.push(42);
    v.push(43);
    v
}

/// How many images a swapchain created with `create_flags` owns: one for
/// a static swapchain, a small fixed ring otherwise.
pub open spec fn spec_swapchain_image_count(create_flags: u64) -> int {
    if create_flags & SWAPCHAIN_CREATE_STATIC_IMAGE_BIT != 0 {
        1
    } else {
        SWAPCHAIN_RING_IMAGE_COUNT as int
    }
}

/// How many native images a swapchain created with `create_flags` needs.
pub fn required_image_count(create_flags: u64) -> (r: usize)
    ensures
        r == spec_swapchain_image_count(create_flags),
{
    if create_flags & SWAPCHAIN_CREATE_STATIC_IMAGE_BIT != 0 {
        1
    } else {
        SWAPCHAIN_RING_IMAGE_COUNT
    }
}

/// One native renderable image backing a swapchain slot, carried as the
/// raw 64-bit handles of the image, its memory and its view. They are
/// allocated at swapchain creation and torn down exactly once at
/// destruction, view first, then memory, then image.
#[derive(Clone, Copy, Debug, PartialEq, Eq, Structural)]
pub struct OffscreenImage {
    pub width: u32,
    pub height: u32,
    pub format: i64,
    pub image: u64,
    pub image_memory: u64,
    pub image_view: u64,
}

/// Everything a swapchain is created from.
#[derive(Clone, Copy, Debug, PartialEq, Eq, Structural)]
pub struct SwapchainCreateInfo {
    pub create_flags: u64,
    pub usage_flags: u64,
    pub format: i64,
    pub sample_count: u32,
    pub width: u32,
    pub height: u32,
    pub face_count: u32,
    pub array_size: u32,
    pub mip_count: u32,
}

/// The image indices 0 to `n - 1`, the full index set of a swapchain.
pub open spec fn spec_full_ring(n: int) -> Seq<usize> {
    Seq::new(n as nat, |i: int| i as usize)
}

/// A rotating set of renderable images handed to the application.
///
/// The four ordered collections available, acquired, waited and released
/// partition the image indices; acquire, wait and release each move one
/// index from the front of one collection to the next collection, and
/// fail with a call-order failure when their source is empty. A released
/// index is never recycled back to available.
#[derive(Debug)]
pub struct SimulatedSwapchain {
    pub session_id: u64,
    pub id: u64,
    pub create_flags: u64,
    pub usage_flags: u64,
    pub format: i64,
    pub sample_count: u32,
    pub width: u32,
    pub height: u32,
    pub face_count: u32,
    pub array_size: u32,
    pub mip_count: u32,
    pub images: Vec<OffscreenImage>,
    pub available_images: VecDeque<usize>,
    pub acquired_images: VecDeque<usize>,
    pub waited_images: VecDeque<usize>,
    pub released_images: VecDeque<usize>,
}

impl SimulatedSwapchain {
    /// The four rotation collections in order, as one sequence.
    pub open spec fn spec_ring(self) -> Seq<usize> {
        self.available_images@ + self.acquired_images@ + self.waited_images@
            + self.released_images@
    }

    /// Rotation well-formedness: the four collections together hold
    /// exactly the full image index set, each index once.
    pub open spec fn rotation_wf(self) -> bool {
        &&& self.images@.len() <= usize::MAX
        &&& self.spec_ring().to_multiset() == spec_full_ring(
            self.images@.len() as int,
        ).to_multiset()
    }

    /// The fields rotation operations never touch.
    pub open spec fn spec_config_unchanged(before: Self, after: Self) -> bool {
        &&& after.session_id == before.session_id
        &&& after.id == before.id
        &&& after.create_flags == before.create_flags
        &&& after.usage_flags == before.usage_flags
        &&& after.format == before.format
        &&& after.sample_count == before.sample_count
        &&& after.width == before.width
        &&& after.height == before.height
        &&& after.face_count == before.face_count
        &&& after.array_size == before.array_size
        &&& after.mip_count == before.mip_count
        &&& after.images@ == before.images@
    }

    /// Creates a swapchain over `images`, which must be exactly the native
    /// images for the requested image count; an unsupported format is
    /// rejected before anything is consumed. All indices start available.
    pub fn new(session_id: u64, id: u64, create_info: &SwapchainCreateInfo, images: Vec<
        OffscreenImage,
    >) -> (r: Result<Self, Error>)
        ensures
            !spec_format_supported(create_info.format) ==> r == Err::<Self, Error>(
                Error::SwapchainFormatUnsupported,
            ),
            spec_format_supported(create_info.format) && images@.len()
                != spec_swapchain_image_count(create_info.create_flags) ==> r == Err::<Self, Error>(
                Error::Validation,
            ),
            spec_format_supported(create_info.format) && images@.len()
                == spec_swapchain_image_count(create_info.create_flags) ==> match r {
                Ok(sc) => {
                    &&& sc.session_id == session_id
                    &&& sc.id == id
                    &&& sc.create_flags == create_info.create_flags
                    &&& sc.usage_flags == create_info.usage_flags
                    &&& sc.format == create_info.format
                    &&& sc.sample_count == create_info.sample_count
                    &&& sc.width == create_info.width
                    &&& sc.height == create_info.height
                    &&& sc.face_count == create_info.face_count
                    &&& sc.array_size == create_info.array_size
                    &&& sc.mip_count == create_info.mip_count
                    &&& sc.images@ == images@
                    &&& sc.available_images@ == spec_full_ring(images@.len() as int)
                    &&& sc.acquired_images@ == Seq::<usize>::empty()
                    &&& sc.waited_images@ == Seq::<usize>::empty()
                    &&& sc.released_images@ == Seq::<usize>::empty()
                    &&& sc.rotation_wf()
                },
                Err(_) => false,
            },
    {
        if !format_supported(create_info.format) {
            return Err(Error::SwapchainFormatUnsupported);
        }
        let num_images = required_image_count(create_info.create_flags);
        if images.len() != num_images {
            return Err(Error::Validation);
        }
        let mut available_images: VecDeque<usize> = VecDeque::new();
        let mut i: usize = 0;
        while i < num_images
            invariant
                0 <= i <= num_images,
                available_images@ =~= spec_full_ring(i as int),
            decreases num_images - i,
        {
            available_images.push_back(i);
            i = i + 1;
        }
        let sc = SimulatedSwapchain {
            session_id,
            id,
            create_flags: create_info.create_flags,
            usage_flags: create_info.usage_flags,
            format: create_info.format,
            sample_count: create_info.sample_count,
            width: create_info.width,
            height: create_info.height,
            face_count: create_info.face_count,
            array_size: create_info.array_size,
            mip_count: create_info.mip_count,
            images,
            available_images,
            acquired_images: VecDeque::new(),
            waited_images: VecDeque::new(),
            released_images: VecDeque::new(),
        };
        proof {
            assert(sc.spec_ring() =~= sc.available_images@);
        }
        Ok(sc)
    }

    /// Acquires the next renderable image: moves the front of available
    /// to the back of acquired and returns its index.
    pub fn acquire_image(&mut self) -> (r: Result<usize, Error>)
        requires
            old(self).rotation_wf(),
        ensures
            Self::spec_config_unchanged(*old(self), *final(self)),
            final(self).rotation_wf(),
            old(self).available_images@.len() == 0 ==> {
                &&& r == Err::<usize, Error>(Error::CallOrderInvalid)
                &&& final(self).available_images@ == old(self).available_images@
                &&& final(self).acquired_images@ == old(self).acquired_images@
                &&& final(self).waited_images@ == old(self).waited_images@
                &&& final(self).released_images@ == old(self).released_images@
            },
            old(self).available_images@.len() > 0 ==> {
                &&& r == Ok::<usize, Error>(old(self).available_images@[0])
                &&& final(self).available_images@ == old(self).available_images@.drop_first()
                &&& final(self).acquired_images@ == old(self).acquired_images@.push(
                    old(self).available_images@[0],
                )
                &&& final(self).waited_images@ == old(self).waited_images@
                &&& final(self).released_images@ == old(self).released_images@
            },
    {
        let popped = self.available_images.pop_front();
        match popped {
            None => Err(Error::CallOrderInvalid),
            Some(index) => {
                self.acquired_images.push_back(index);
                proof {
                    lemma_ring_move(
                        old(self).available_images@,
                        old(self).acquired_images@,
                        old(self).waited_images@,
                        old(self).released_images@,
                    );
                    assert(self.spec_ring() =~= old(self).available_images@.drop_first()
                        + old(self).acquired_images@.push(old(self).available_images@[0])
                        + old(self).waited_images@ + old(self).released_images@);
                }
                Ok(index)
            },
        }
    }

    /// Waits for the oldest acquired image: moves the front of acquired
    /// to the front of waited.
    pub fn wait_image(&mut self) -> (r: Result<(), Error>)
        requires
            old(self).rotation_wf(),
        ensures
            Self::spec_config_unchanged(*old(self), *final(self)),
            final(self).rotation_wf(),
            old(self).acquired_images@.len() == 0 ==> {
                &&& r == Err::<(), Error>(Error::CallOrderInvalid)
                &&& final(self).available_images@ == old(self).available_images@
                &&& final(self).acquired_images@ == old(self).acquired_images@
                &&& final(self).waited_images@ == old(self).waited_images@
                &&& final(self).released_images@ == old(self).released_images@
            },
            old(self).acquired_images@.len() > 0 ==> {
                &&& r == Ok::<(), Error>(())
                &&& final(self).available_images@ == old(self).available_images@
                &&& final(self).acquired_images@ == old(self).acquired_images@.drop_first()
                &&& final(self).waited_images@ == seq![old(self).acquired_images@[0]] + old(
                    self,
                ).waited_images@
                &&& final(self).released_images@ == old(self).released_images@
            },
    {
        let popped = self.acquired_images.pop_front();
        match popped {
            None => Err(Error::CallOrderInvalid),
            Some(index) => {
                self.waited_images.push_front(index);
                proof {
                    lemma_ring_move_middle(
                        old(self).available_images@,
                        old(self).acquired_images@,
                        old(self).waited_images@,
                        old(self).released_images@,
                    );
                    assert(self.spec_ring() =~= old(self).available_images@ + old(
                        self,
                    ).acquired_images@.drop_first() + (seq![old(self).acquired_images@[0]] + old(
                        self,
                    ).waited_images@) + old(self).released_images@);
                }
                Ok(())
            },
        }
    }

    /// Releases the most recently waited image: moves the front of waited
    /// to the back of released.
    pub fn release_image(&mut self) -> (r: Result<(), Error>)
        requires
            old(self).rotation_wf(),
        ensures
            Self::spec_config_unchanged(*old(self), *final(self)),
            final(self).rotation_wf(),
            old(self).waited_images@.len() == 0 ==> {
                &&& r == Err::<(), Error>(Error::CallOrderInvalid)
                &&& final(self).available_images@ == old(self).available_images@
                &&& final(self).acquired_images@ == old(self).acquired_images@
                &&& final(self).waited_images@ == old(self).waited_images@
                &&& final(self).released_images@ == old(self).released_images@
            },
            old(self).waited_images@.len() > 0 ==> {
                &&& r == Ok::<(), Error>(())
                &&& final(self).available_images@ == old(self).available_images@
                &&& final(self).acquired_images@ == old(self).acquired_images@
                &&& final(self).waited_images@ == old(self).waited_images@.drop_first()
                &&& final(self).released_images@ == old(self).released_images@.push(
                    old(self).waited_images@[0],
                )
            },
    {
        let popped = self.waited_images.pop_front();
        match popped {
            None => Err(Error::CallOrderInvalid),
            Some(index) => {
                self.released_images.push_back(index);
                proof {
                    lemma_ring_move_last(
                        old(self).available_images@,
                        old(self).acquired_images@,
                        old(self).waited_images@,
                        old(self).released_images@,
                    );
                    assert(self.spec_ring() =~= old(self).available_images@ + old(
                        self,
                    ).acquired_images@ + old(self).waited_images@.drop_first() + old(
                        self,
                    ).released_images@.push(old(self).waited_images@[0]));
                }
                Ok(())
            },
        }
    }
}

/// Moving the front of `a` to the back of `b` permutes the ring.
proof fn lemma_ring_move(a: Seq<usize>, b: Seq<usize>, c: Seq<usize>, d: Seq<usize>)
    requires
        a.len() > 0,
    ensures
        (a.drop_first() + b.push(a[0]) + c + d).to_multiset() == (a + b + c + d).to_multiset(),
{
    lemma_ring_concat_multisets(a, b, c, d);
    lemma_ring_concat_multisets(a.drop_first(), b.push(a[0]), c, d);
    assert(a.drop_first() =~= a.remove(0));
    assert((a.drop_first() + b.push(a[0]) + c + d).to_multiset() =~= (a + b + c + d).to_multiset());
}

/// Moving the front of `b` to the front of `c` permutes the ring.
proof fn lemma_ring_move_middle(a: Seq<usize>, b: Seq<usize>, c: Seq<usize>, d: Seq<usize>)
    requires
        b.len() > 0,
    ensures
        (a + b.drop_first() + (seq![b[0]] + c) + d).to_multiset() == (a + b + c + d).to_multiset(),
{
    lemma_ring_concat_multisets(a, b, c, d);
    lemma_ring_concat_multisets(a, b.drop_first(), seq![b[0]] + c, d);
    lemma_multiset_commutative(seq![b[0]], c);
    assert(b.drop_first() =~= b.remove(0));
    assert(seq![b[0]].to_multiset() =~= Seq::<usize>::empty().push(b[0]).to_multiset());
    assert(Seq::<usize>::empty().push(b[0]).to_multiset() =~= Multiset::<usize>::empty().insert(
        b[0],
    ));
    assert((a + b.drop_first() + (seq![b[0]] + c) + d).to_multiset() =~= (a + b + c
        + d).to_multiset());
}

/// Moving the front of `c` to the back of `d` permutes the ring.
proof fn lemma_ring_move_last(a: Seq<usize>, b: Seq<usize>, c: Seq<usize>, d: Seq<usize>)
    requires
        c.len() > 0,
    ensures
        (a + b + c.drop_first() + d.push(c[0])).to_multiset() == (a + b + c + d).to_multiset(),
{
    lemma_ring_concat_multisets(a, b, c, d);
    lemma_ring_concat_multisets(a, b, c.drop_first(), d.push(c[0]));
    assert(c.drop_first() =~= c.remove(0));
    assert((a + b + c.drop_first() + d.push(c[0])).to_multiset() =~= (a + b + c + d).to_multiset());
}

/// The multiset of the four-way concatenation is the sum of the parts.
proof fn lemma_ring_concat_multisets(a: Seq<usize>, b: Seq<usize>, c: Seq<usize>, d: Seq<usize>)
    ensures
        (a + b + c + d).to_multiset() == a.to_multiset().add(b.to_multiset()).add(
            c.to_multiset(),
        ).add(d.to_multiset()),
{
    lemma_multiset_commutative(a, b);
    lemma_multiset_commutative(a + b, c);
    lemma_multiset_commutative(a + b + c, d);
}

/// Whether memory type `i` is allowed by the requirement bits and offers
/// all the wanted property flags.
pub open spec fn spec_memory_type_matches(
    memory_type_bits: u32,
    property_flags: u64,
    wanted: u64,
    i: int,
) -> bool {
    &&& (1u32 << i) & memory_type_bits != 0
    &&& property_flags & wanted == wanted
}

/// Picks the first memory type that the requirement bits allow and that
/// offers all the wanted property flags. The protocol caps the memory
/// type count at 32, the width of the requirement mask.
pub fn find_memory_type_index(memory_type_bits: u32, memory_type_property_flags: &Vec<u64>, flags: u64) -> (r:
    Option<u32>)
    requires
        memory_type_property_flags@.len() <= 32,
    ensures
        match r {
            Some(idx) => {
                &&& 0 <= idx < memory_type_property_flags@.len()
                &&& spec_memory_type_matches(
                    memory_type_bits,
                    memory_type_property_flags@[idx as int],
                    flags,
                    idx as int,
                )
                &&& forall|j: int| 0 <= j < idx ==> !spec_memory_type_matches(
                    memory_type_bits,
                    #[trigger] memory_type_property_flags@[j],
                    flags,
                    j,
                )
            },
            None => forall|j: int| 0 <= j < memory_type_property_flags@.len()
                ==> !spec_memory_type_matches(
                memory_type_bits,
                #[trigger] memory_type_property_flags@[j],
                flags,
                j,
            ),
        },
{
    let n = memory_type_property_flags.len();
    let mut i: usize = 0;
    while i < n
        invariant
            n == memory_type_property_flags@.len(),
            n <= 32,
            0 <= i <= n,
            forall|j: int| 0 <= j < i ==> !spec_memory_type_matches(
                memory_type_bits,
                #[trigger] memory_type_property_flags@[j],
                flags,
                j,
            ),
        decreases n - i,
    {
        if (1u32 << (i as u32)) & memory_type_bits != 0 && memory_type_property_flags[i] & flags
            == flags {
            return Some(i as u32);
        }
        i = i + 1;
    }
    None
}

/// Two index collections share no element.
pub open spec fn spec_disjoint_indices(a: Seq<usize>, b: Seq<usize>) -> bool {
    forall|x: usize| !(#[trigger] a.contains(x) && #[trigger] b.contains(x))
}

/// How often `x` occurs among the image indices 0 to `n - 1`: once if it
/// is one of them, never otherwise.
pub proof fn lemma_full_ring_count(n: int, x: usize)
    requires
        0 <= n <= usize::MAX,
    ensures
        spec_full_ring(n).to_multiset().count(x) == if (x as int) < n {
            1int
        } else {
            0int
        },
    decreases n,
{
    if n == 0 {
        assert(spec_full_ring(0) =~= Seq::<usize>::empty());
        assert(Seq::<usize>::empty().to_multiset() =~= Multiset::<usize>::empty());
    } else {
        lemma_full_ring_count(n - 1, x);
        assert(spec_full_ring(n) =~= spec_full_ring(n - 1).push((n - 1) as usize));
        assert(spec_full_ring(n).to_multiset() =~= spec_full_ring(n - 1).push(
            (n - 1) as usize,
        ).to_multiset());
        assert(spec_full_ring(n - 1).push((n - 1) as usize).to_multiset() =~= spec_full_ring(
            n - 1,
        ).to_multiset().insert((n - 1) as usize));
    }
}

/// Rotation conservation: in a well-formed swapchain the four index
/// collections are pairwise disjoint and together hold exactly the full
/// image index set.
pub proof fn lemma_rotation_conservation(sc: SimulatedSwapchain)
    requires
        sc.rotation_wf(),
    ensures
        forall|x: usize| #[trigger] sc.spec_ring().contains(x) <==> (x as int) < sc.images@.len(),
        spec_disjoint_indices(sc.available_images@, sc.acquired_images@),
        spec_disjoint_indices(sc.available_images@, sc.waited_images@),
        spec_disjoint_indices(sc.available_images@, sc.released_images@),
        spec_disjoint_indices(sc.acquired_images@, sc.waited_images@),
        spec_disjoint_indices(sc.acquired_images@, sc.released_images@),
        spec_disjoint_indices(sc.waited_images@, sc.released_images@),
{
    let av = sc.available_images@;
    let aq = sc.acquired_images@;
    let wa = sc.waited_images@;
    let re = sc.released_images@;
    let ring = sc.spec_ring();
    let n = sc.images@.len() as int;
    lemma_ring_concat_multisets(av, aq, wa, re);
    assert forall|x: usize| #[trigger] ring.contains(x) <==> (x as int) < n by {
        lemma_full_ring_count(n, x);
        assert(ring.contains(x) <==> ring.to_multiset().count(x) > 0);
    }
    assert forall|x: usize| ring.to_multiset().count(x) <= 1 by {
        lemma_full_ring_count(n, x);
    }
    assert forall|x: usize| !(#[trigger] av.contains(x) && #[trigger] aq.contains(x)) by {
        if av.contains(x) && aq.contains(x) {
            assert(ring.to_multiset().count(x) <= 1);
            assert(av.to_multiset().count(x) > 0);
            assert(aq.to_multiset().count(x) > 0);
        }
    }
    assert forall|x: usize| !(#[trigger] av.contains(x) && #[trigger] wa.contains(x)) by {
        if av.contains(x) && wa.contains(x) {
            assert(ring.to_multiset().count(x) <= 1);
            assert(av.to_multiset().count(x) > 0);
            assert(wa.to_multiset().count(x) > 0);
        }
    }
    assert forall|x: usize| !(#[trigger] av.contains(x) && #[trigger] re.contains(x)) by {
        if av.contains(x) && re.contains(x) {
            assert(ring.to_multiset().count(x) <= 1);
            assert(av.to_multiset().count(x) > 0);
            assert(re.to_multiset().count(x) > 0);
        }
    }
    assert forall|x: usize| !(#[trigger] aq.contains(x) && #[trigger] wa.contains(x)) by {
        if aq.contains(x) && wa.contains(x) {
            assert(ring.to_multiset().count(x) <= 1);
            assert(aq.to_multiset().count(x) > 0);
            assert(wa.to_multiset().count(x) > 0);
        }
    }
    assert forall|x: usize| !(#[trigger] aq.contains(x) && #[trigger] re.contains(x)) by {
        if aq.contains(x) && re.contains(x) {
            assert(ring.to_multiset().count(x) <= 1);
            assert(aq.to_multiset().count(x) > 0);
            assert(re.to_multiset().count(x) > 0);
        }
    }
    assert forall|x: usize| !(#[trigger] wa.contains(x) && #[trigger] re.contains(x)) by {
        if wa.contains(x) && re.contains(x) {
            assert(ring.to_multiset().count(x) <= 1);
            assert(wa.to_multiset().count(x) > 0);
            assert(re.to_multiset().count(x) > 0);
        }
    }
}

} // verus!
