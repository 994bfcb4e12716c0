use vstd::prelude::*;
use vstd::string::{StrSliceExecFns, StringExecFns};
use crate::text::{decimal, decimal_string, push_decimal};

verus! {

/// Whether `c` is white space in the Unicode sense (the `White_Space` property).
pub open spec fn is_space(c: char) -> bool {
    let u = c as u32;
    (0x09 <= u && u <= 0x0d) || u == 0x20 || u == 0x85 || u == 0xa0 || u == 0x1680 || (0x2000
        <= u && u <= 0x200a) || u == 0x2028 || u == 0x2029 || u == 0x202f || u == 0x205f || u
        == 0x3000
}

/// Tests a character for Unicode white space.
pub fn is_space_exec(c: char) -> (r: bool)
    ensures
        r == is_space(c),
{
    let u = c as u32;
    (0x09 <= u && u <= 0x0d) || u == 0x20 || u == 0x85 || u == 0xa0 || u == 0x1680 || (0x2000
        <= u && u <= 0x200a) || u == 0x2028 || u == 0x2029 || u == 0x202f || u == 0x205f || u
        == 0x3000
}

/// End of the last word within the first `n` characters of `s` (0 when there is none).
pub open spec fn word_end(s: Seq<char>, n: int) -> int
    decreases n,
{
    if n <= 0 {
        0
    } else if is_space(s[n - 1]) {
        word_end(s, n - 1)
    } else {
        n
    }
}

/// Start of the run of non-space characters that ends at `n`.
pub open spec fn word_start(s: Seq<char>, n: int) -> int
    decreases n,
{
    if n <= 0 {
        0
    } else if is_space(s[n - 1]) {
        n
    } else {
        word_start(s, n - 1)
    }
}

/// The last white-space-separated word of `s`, if it has any.
pub open spec fn last_word_of(s: Seq<char>) -> Option<Seq<char>> {
    let e = word_end(s, s.len() as int);
    if e == 0 {
        None
    } else {
        Some(s.subrange(word_start(s, e), e))
    }
}

/// The last white-space-separated word of `s`; `None` when `s` is empty or all white space.
pub fn last_word(s: &str) -> (r: Option<&str>)
    ensures
        r is None <==> last_word_of(s@) is None,
        r matches Some(w) ==> last_word_of(s@) == Some(w@),
{
    let len = s.unicode_len();
    let mut e = len;
    while e > 0 && is_space_exec(s.get_char(e - 1))
        invariant
            e <= len,
            len == s@.len(),
            word_end(s@, e as int) == word_end(s@, len as int),
        decreases e,
    {
        e = e - 1;
    }
    if e == 0 {
        return None;
    }
    let mut b = e;
    while b > 0 && !is_space_exec(s.get_char(b - 1))
        invariant
            b <= e,
            e <= len,
            len == s@.len(),
            word_start(s@, b as int) == word_start(s@, e as int),
        decreases b,
    {
        b = b - 1;
    }
    Some(s.substring_char(b, e))
}

/// The title of the single device-list tab.
pub open spec fn device_list_title() -> Seq<char> {
    "Device List"@
}

/// What a dock tab shows, decided by its title.
#[derive(Debug, Clone, PartialEq, Eq)]
pub enum TabView {
    /// The list of devices.
    DeviceList,
    /// The controls of the camera whose key is the title's last word.
    CameraControls(String),
}

/// Decides what a tab shows: the device list for its own title, otherwise the controls of
/// the camera named by the title's last word. `None` for a title without any word.
pub fn route_tab(title: &str) -> (r: Option<TabView>)
    ensures
        last_word_of(title@) is None ==> r is None,
        last_word_of(title@) is Some && title@ == device_list_title() ==> r == Some(
            TabView::DeviceList,
        ),
        last_word_of(title@) is Some && title@ != device_list_title() ==> (r matches Some(
            TabView::CameraControls(k),
        ) && Some(k@) == last_word_of(title@)),
{
    let w = match last_word(title) {
        None => return None,
        Some(w) => w,
    };
    let t = title.to_owned();
    let d = "Device List".to_owned();
    proof {
        reveal_strlit("Device List");
    }
    if t == d {
        Some(TabView::DeviceList)
    } else {
        Some(TabView::CameraControls(w.to_owned()))
    }
}

/// Name given to the `n`-th camera that is added.
pub open spec fn camera_name(n: nat) -> Seq<char> {
    "Example Camera #"@ + decimal(n)
}

/// A connected camera, keyed by its number.
pub struct Camera {
    pub id: u32,
    pub name: String,
}

/// The connected cameras, numbered from 1 in the order they were added.
pub struct CameraRegistry {
    count: u32,
    cameras: Vec<Camera>,
}

impl View for CameraRegistry {
    type V = Seq<(u32, Seq<char>)>;

    closed spec fn view(&self) -> Seq<(u32, Seq<char>)> {
        self.cameras@.map_values(|c: Camera| (c.id, c.name@))
    }
}

impl CameraRegistry {
    /// Camera `i` (from 0) has number `i + 1`.
    pub closed spec fn wf(&self) -> bool {
        &&& self.cameras@.len() == self.count
        &&& forall|i: int| 0 <= i < self.cameras@.len() ==> #[trigger] self.cameras@[i].id == i + 1
    }

    /// No camera connected.
    pub fn new() -> (r: CameraRegistry)
        ensures
            r.wf(),
            r@ == Seq::<(u32, Seq<char>)>::empty(),
    {
        CameraRegistry { count: 0, cameras: Vec::new() }
    }

    /// Camera `i` (from 0) has number `i + 1`.
    pub proof fn lemma_numbered(&self)
        requires
            self.wf(),
        ensures
            numbered(self@),
    {
    }

    /// Number of cameras.
    pub fn len(&self) -> (r: usize)
        requires
            self.wf(),
        ensures
            r == self@.len(),
    {
        self.cameras.len()
    }

    /// Adds a sample camera numbered one past the last, and returns its number.
    pub fn add_camera(&mut self) -> (id: u32)
        requires
            old(self).wf(),
            old(self)@.len() < u32::MAX,
        ensures
            final(self).wf(),
            id == old(self)@.len() + 1,
            final(self)@ == old(self)@.push((id, camera_name(id as nat))),
    {
        let n = self.count + 1;
        let mut name = String::new();
        name.append("Example Camera #");
        push_decimal(&mut name, n as u64);
        assert(name@ =~= camera_name(n as nat));
        self.cameras.push(Camera { id: n, name });
        self.count = n;
        assert(self@ =~= old(self)@.push((n, camera_name(n as nat))));
        n
    }

    /// The camera at position `i`, in the order they were added.
    pub fn get(&self, i: usize) -> (r: &Camera)
        requires
            self.wf(),
            i < self@.len(),
        ensures
            (r.id, r.name@) == self@[i as int],
    {
        &self.cameras[i]
    }

    /// The first camera whose key (its number in decimal) is `key`.
    pub fn find(&self, key: &str) -> (r: Option<&Camera>)
        requires
            self.wf(),
        ensures
            r is None <==> forall|i: int| 0 <= i < self@.len() ==> decimal(
                #[trigger] self@[i].0 as nat,
            ) != key@,
            r matches Some(c) ==> exists|i: int|
                0 <= i < self@.len() && #[trigger] self@[i] == (c.id, c.name@) && decimal(
                    c.id as nat,
                ) == key@,
    {
        let k = key.to_owned();
        let mut i: usize = 0;
        while i < self.cameras.len()
            invariant
                i <= self@.len(),
                self@.len() == self.cameras@.len(),
                k@ == key@,
                forall|j: int| 0 <= j < i ==> decimal(#[trigger] self@[j].0 as nat) != key@,
            decreases self.cameras@.len() - i,
        {
            let c = &self.cameras[i];
            let s = decimal_string(c.id as u64);
            assert(self@[i as int] == (c.id, c.name@));
            if s == k {
                assert(decimal(self@[i as int].0 as nat) == key@);
                return Some(c);
            }
            i = i + 1;
        }
        None
    }
}

/// Title of the tab for a camera: its name, a space, and its number.
pub open spec fn tab_title(id: u32, name: Seq<char>) -> Seq<char> {
    name + " "@ + decimal(id as nat)
}

/// The dock's tab titles and the cameras that already have a tab.
pub struct DockTabs {
    titles: Vec<String>,
    tabbed: Vec<u32>,
}

impl DockTabs {
    /// Titles of the tabs, in the order they were opened.
    pub closed spec fn spec_titles(&self) -> Seq<Seq<char>> {
        self.titles@.map_values(|t: String| t@)
    }

    /// Numbers of the cameras that have a tab, in the order their tabs were opened.
    pub closed spec fn spec_tabbed(&self) -> Seq<u32> {
        self.tabbed@
    }

    /// Only the device-list tab.
    pub fn new() -> (r: DockTabs)
        ensures
            r.spec_titles() == seq![device_list_title()],
            r.spec_tabbed() == Seq::<u32>::empty(),
    {
        let mut titles: Vec<String> = Vec::new();
        proof {
            reveal_strlit("Device List");
        }
        titles.push("Device List".to_owned());
        let r = DockTabs { titles, tabbed: Vec::new() };
        assert(r.spec_titles() =~= seq![device_list_title()]);
        r
    }

    /// Titles of the tabs, in the order they were opened.
    pub fn titles(&self) -> (r: &Vec<String>)
        ensures
            r@.map_values(|t: String| t@) == self.spec_titles(),
    {
        &self.titles
    }

    fn has_tab(&self, id: u32) -> (r: bool)
        ensures
            r == self.spec_tabbed().contains(id),
    {
        let mut i: usize = 0;
        while i < self.tabbed.len()
            invariant
                i <= self.tabbed@.len(),
                forall|j: int| 0 <= j < i ==> self.tabbed@[j] != id,
            decreases self.tabbed@.len() - i,
        {
            if self.tabbed[i] == id {
                return true;
            }
            i = i + 1;
        }
        false
    }

    /// Opens a tab for every camera of the registry that has none yet, in the registry's
    /// order.
    pub fn sync(&mut self, reg: &CameraRegistry)
        requires
            reg.wf(),
        ensures
            final(self).spec_tabbed() == old(self).spec_tabbed() + untabbed(reg@, old(self).spec_tabbed()).map_values(
                |c: (u32, Seq<char>)| c.0,
            ),
            final(self).spec_titles() == old(self).spec_titles() + untabbed(reg@, old(self).spec_tabbed()).map_values(
                |c: (u32, Seq<char>)| tab_title(c.0, c.1),
            ),
    {
        let ghost start_tabbed = self.tabbed@;
        let ghost start_titles = self.spec_titles();
        let ghost cams = reg@;
        let n = reg.len();
        let mut i: usize = 0;
        while i < n
            invariant
                reg.wf(),
                n == cams.len(),
                cams == reg@,
                i <= n,
                self.tabbed@ == start_tabbed + untabbed(cams.take(i as int), start_tabbed).map_values(
                    |c: (u32, Seq<char>)| c.0,
                ),
                self.spec_titles() == start_titles + untabbed(cams.take(i as int), start_tabbed).map_values(
                    |c: (u32, Seq<char>)| tab_title(c.0, c.1),
                ),
            decreases n - i,
        {
            let c = reg.get(i);
            proof {
                lemma_untabbed_step(cams.take(i as int), cams[i as int], start_tabbed);
                assert(cams.take(i + 1) =~= cams.take(i as int).push(cams[i as int]));
                reg.lemma_numbered();
                lemma_not_tabbed_yet(cams, start_tabbed, i as int);
            }
            if !self.has_tab(c.id) {
                let mut t = String::new();
                t.append(c.name.as_str());
                t.append(" ");
                push_decimal(&mut t, c.id as u64);
                proof {
                    reveal_strlit(" ");
                }
                assert(t@ =~= tab_title(c.id, c.name@));
                let ghost before = self.titles@;
                let ghost tv = t@;
                self.titles.push(t);
                assert(self.titles@.map_values(|x: String| x@) =~= before.map_values(|x: String| x@).push(tv));
                self.tabbed.push(c.id);
                assert(self.tabbed@ =~= start_tabbed + untabbed(cams.take(i + 1), start_tabbed).map_values(
                    |c: (u32, Seq<char>)| c.0,
                ));
                assert(self.spec_titles() =~= start_titles + untabbed(cams.take(i + 1), start_tabbed).map_values(
                    |c: (u32, Seq<char>)| tab_title(c.0, c.1),
                ));
            } else {
                assert(self.tabbed@ =~= start_tabbed + untabbed(cams.take(i + 1), start_tabbed).map_values(
                    |c: (u32, Seq<char>)| c.0,
                ));
            }
            i = i + 1;
        }
        assert(cams.take(n as int) =~= cams);
    }
}

/// Whether camera `i` (from 0) of `cams` has number `i + 1`.
pub open spec fn numbered(cams: Seq<(u32, Seq<char>)>) -> bool {
    forall|i: int| 0 <= i < cams.len() ==> #[trigger] cams[i].0 == i + 1
}

proof fn lemma_untabbed_step(s: Seq<(u32, Seq<char>)>, c: (u32, Seq<char>), t: Seq<u32>)
    ensures
        untabbed(s.push(c), t) == if !t.contains(c.0) {
            untabbed(s, t).push(c)
        } else {
            untabbed(s, t)
        },
        untabbed(s, t).push(c).map_values(|x: (u32, Seq<char>)| x.0) == untabbed(s, t).map_values(
            |x: (u32, Seq<char>)| x.0,
        ).push(c.0),
        untabbed(s, t).push(c).map_values(|x: (u32, Seq<char>)| tab_title(x.0, x.1))
            == untabbed(s, t).map_values(|x: (u32, Seq<char>)| tab_title(x.0, x.1)).push(
            tab_title(c.0, c.1),
        ),
{
    reveal_with_fuel(Seq::filter, 1);
    assert(s.push(c).drop_last() =~= s);
    let u = untabbed(s, t);
    assert(u.push(c).map_values(|x: (u32, Seq<char>)| x.0) =~= u.map_values(
        |x: (u32, Seq<char>)| x.0,
    ).push(c.0));
    assert(u.push(c).map_values(|x: (u32, Seq<char>)| tab_title(x.0, x.1)) =~= u.map_values(
        |x: (u32, Seq<char>)| tab_title(x.0, x.1),
    ).push(tab_title(c.0, c.1)));
}

/// Before camera `i` is looked at, no tab opened so far carries its number.
proof fn lemma_not_tabbed_yet(cams: Seq<(u32, Seq<char>)>, t: Seq<u32>, i: int)
    requires
        numbered(cams),
        0 <= i < cams.len(),
    ensures
        (t + untabbed(cams.take(i), t).map_values(|x: (u32, Seq<char>)| x.0)).contains(cams[i].0)
            == t.contains(cams[i].0),
{
    let pre = cams.take(i);
    let u = untabbed(pre, t);
    let m = u.map_values(|x: (u32, Seq<char>)| x.0);
    assert forall|k: int| 0 <= k < m.len() implies m[k] != cams[i].0 by {
        assert(u.contains(u[k]));
        pre.lemma_filter_contains_rev(not_in(t), u[k]);
        assert(pre.contains(u[k]));
        let j = choose|j: int| 0 <= j < pre.len() && pre[j] == u[k];
        assert(pre[j] == cams[j]);
    }
    let all = t + m;
    if all.contains(cams[i].0) {
        let k = choose|k: int| 0 <= k < all.len() && all[k] == cams[i].0;
        if k >= t.len() {
            assert(m[k - t.len()] == all[k]);
        }
        assert(t.contains(cams[i].0));
    }
    if t.contains(cams[i].0) {
        let k = choose|k: int| 0 <= k < t.len() && t[k] == cams[i].0;
        assert(all[k] == t[k]);
    }
}

/// After a sync every camera has a tab: syncing again with the same cameras opens none.
pub proof fn lemma_sync_covers(cams: Seq<(u32, Seq<char>)>, tabbed: Seq<u32>)
    ensures
        untabbed(
            cams,
            tabbed + untabbed(cams, tabbed).map_values(|c: (u32, Seq<char>)| c.0),
        ).len() == 0,
{
    let u = untabbed(cams, tabbed);
    let m = u.map_values(|c: (u32, Seq<char>)| c.0);
    let t2 = tabbed + m;
    let v = untabbed(cams, t2);
    if v.len() > 0 {
        let x = v[0];
        assert(v.contains(x));
        cams.lemma_filter_contains_rev(not_in(t2), x);
        cams.lemma_filter_pred(not_in(t2), 0);
        assert(!t2.contains(x.0));
        let j = choose|j: int| 0 <= j < cams.len() && cams[j] == x;
        if tabbed.contains(x.0) {
            let k = choose|k: int| 0 <= k < tabbed.len() && tabbed[k] == x.0;
            assert(t2[k] == x.0);
        } else {
            cams.lemma_filter_contains(not_in(tabbed), j);
            assert(u.contains(x));
            let k = choose|k: int| 0 <= k < u.len() && u[k] == x;
            assert(t2[tabbed.len() + k] == m[k]);
        }
    }
}

/// Holds of a camera whose number is not among `tabbed`.
pub open spec fn not_in(tabbed: Seq<u32>) -> spec_fn((u32, Seq<char>)) -> bool {
    |c: (u32, Seq<char>)| !tabbed.contains(c.0)
}

/// The cameras of `cams` whose number is not among `tabbed`, in order.
pub open spec fn untabbed(cams: Seq<(u32, Seq<char>)>, tabbed: Seq<u32>) -> Seq<(u32, Seq<char>)> {
    cams.filter(not_in(tabbed))
}

} // verus!
