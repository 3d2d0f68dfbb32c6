use vstd::prelude::*;

verus! {

/// Items `start..end` of a flow, placed on one page, using `used_height`.
#[derive(Clone, Copy, Debug, PartialEq, Eq, Structural)]
pub struct PageSlice {
    pub start: usize,
    pub end: usize,
    pub used_height: i32,
}

/// An item's height as laid out: negative heights count as zero.
pub open spec fn clamped(h: i32) -> i32 {
    if h < 0 {
        0
    } else {
        h
    }
}

/// `a + b` for non-negative heights, stopping at `i32::MAX`.
pub open spec fn sat_add(a: i32, b: i32) -> i32 {
    if a + b > i32::MAX {
        i32::MAX
    } else {
        (a + b) as i32
    }
}

/// Closed pages, start of the open page and its used height, after the
/// first `k` items. An item opens a new page when it has height, the open
/// page already holds some height, and it would overflow `page_height`.
pub open spec fn flow_state(items: Seq<i32>, page_height: i32, k: nat) -> (Seq<PageSlice>, usize, i32)
    decreases k,
{
    if k == 0 || k > items.len() {
        (seq![], 0, 0)
    } else {
        let prev = flow_state(items, page_height, (k - 1) as nat);
        let h = clamped(items[k - 1]);
        let next = sat_add(prev.2, h);
        if h > 0 && prev.2 > 0 && next > page_height {
            (
                prev.0.push(PageSlice { start: prev.1, end: (k - 1) as usize, used_height: prev.2 }),
                (k - 1) as usize,
                h,
            )
        } else {
            (prev.0, prev.1, next)
        }
    }
}

/// The pages of a flow: none for no items, else the closed pages followed
/// by the last, open one.
pub open spec fn paginate_spec(items: Seq<i32>, page_height: i32) -> Seq<PageSlice> {
    if items.len() == 0 {
        seq![]
    } else {
        let st = flow_state(items, page_height, items.len());
        st.0.push(PageSlice { start: st.1, end: items.len() as usize, used_height: st.2 })
    }
}

proof fn lemma_flow_used_nonneg(items: Seq<i32>, page_height: i32, k: nat)
    ensures
        flow_state(items, page_height, k).2 >= 0,
        k <= items.len() ==> flow_state(items, page_height, k).1 <= k,
    decreases k,
{
    if k > 0 && k <= items.len() {
        lemma_flow_used_nonneg(items, page_height, (k - 1) as nat);
    }
}

/// Splits a flow of item heights into pages of at most `page_height`
/// (a negative page height counts as zero). An item taller than a page
/// gets a page of its own; zero-height items stay on the open page.
pub fn paginate_flow(items: &[i32], page_height: i32) -> (pages: Vec<PageSlice>)
    ensures
        pages@ == paginate_spec(items@, if page_height < 0 {
            0i32
        } else {
            page_height
        }),
{
    let ghost ph = if page_height < 0 {
        0i32
    } else {
        page_height
    };
    if items.len() == 0 {
        return Vec::new();
    }
    let page_height: i32 = if page_height < 0 {
        0
    } else {
        page_height
    };
    let mut pages: Vec<PageSlice> = Vec::new();
    let mut start: usize = 0;
    let mut used: i32 = 0;
    let mut index: usize = 0;
    while index < items.len()
        invariant
            index <= items@.len(),
            page_height == ph,
            flow_state(items@, ph, index as nat) == (pages@, start, used),
        decreases items@.len() - index,
    {
        proof {
            lemma_flow_used_nonneg(items@, ph, index as nat);
        }
        let raw = items[index];
        let height: i32 = if raw < 0 {
            0
        } else {
            raw
        };
        let next_used: i32 = if used > i32::MAX - height {
            i32::MAX
        } else {
            used + height
        };
        if height > 0 && used > 0 && next_used > page_height {
            pages.push(PageSlice { start, end: index, used_height: used });
            start = index;
            used = height;
        } else {
            used = next_used;
        }
        index = index + 1;
    }
    pages.push(PageSlice { start, end: items.len(), used_height: used });
    pages
}

} // verus!
