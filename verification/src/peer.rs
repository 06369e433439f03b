use vstd::prelude::*;
use crate::events::{
    encode_int_records, int_rows_view, json_int_objects_text, string_rows_view, strings_view,
};

verus! {

/// A screen resolution.
#[derive(Clone, Copy, Debug, PartialEq, Eq, Structural)]
pub struct Resolution {
    pub width: i32,
    pub height: i32,
}

/// What a peer says of one of its displays, as far as the UI is told.
#[derive(Clone, Copy, Debug, PartialEq, Eq)]
pub struct DisplayInfo {
    pub x: i32,
    pub y: i32,
    pub width: i32,
    pub height: i32,
    pub cursor_embedded: bool,
    pub original_resolution: Option<Resolution>,
}

/// 1 for true, 0 for false.
pub open spec fn flag(b: bool) -> i32 {
    if b {
        1
    } else {
        0
    }
}

/// The member names of the record of a display.
pub open spec fn display_keys(d: DisplayInfo) -> Seq<Seq<char>> {
    let base = seq!["x"@, "y"@, "width"@, "height"@, "cursor_embedded"@];
    if d.original_resolution is Some {
        base.push("original_width"@).push("original_height"@)
    } else {
        base
    }
}

/// The members of the record of a display, in the order of [`display_keys`].
pub open spec fn display_values(d: DisplayInfo) -> Seq<i32> {
    let base = seq![d.x, d.y, d.width, d.height, flag(d.cursor_embedded)];
    match d.original_resolution {
        Some(r) => base.push(r.width).push(r.height),
        None => base,
    }
}

/// The text that tells the UI of the displays: a JSON array with one object for each.
pub open spec fn displays_msg(displays: Seq<DisplayInfo>) -> Seq<char> {
    json_int_objects_text(
        displays.map_values(|d: DisplayInfo| display_keys(d)),
        displays.map_values(|d: DisplayInfo| display_values(d)),
    )
}

/// The text that tells the UI of the resolutions: a JSON array with one object, of a
/// width and a height, for each.
pub open spec fn resolutions_msg(resolutions: Seq<Resolution>) -> Seq<char> {
    json_int_objects_text(
        resolutions.map_values(|r: Resolution| seq!["width"@, "height"@]),
        resolutions.map_values(|r: Resolution| seq![r.width, r.height]),
    )
}

/// The seven member names of the record of a display are all different.
proof fn lemma_display_keys_differ(d: DisplayInfo)
    ensures
        display_keys(d).no_duplicates(),
{
    reveal_strlit("x");
    reveal_strlit("y");
    reveal_strlit("width");
    reveal_strlit("height");
    reveal_strlit("cursor_embedded");
    reveal_strlit("original_width");
    reveal_strlit("original_height");
    let k = display_keys(d);
    assert(k[0].len() == 1 && k[0][0] == 'x');
    assert(k[1].len() == 1 && k[1][0] == 'y');
    assert(k[2].len() == 5);
    assert(k[3].len() == 6);
    assert(k[4].len() == 15 && k[4][0] == 'c');
    if d.original_resolution is Some {
        assert(k[5].len() == 14);
        assert(k[6].len() == 15 && k[6][0] == 'o');
    }
}

/// The text that tells the UI of the displays.
pub fn make_displays_msg(displays: &Vec<DisplayInfo>) -> (text: String)
    ensures
        text@ == displays_msg(displays@),
{
    let mut keys: Vec<Vec<String>> = Vec::new();
    let mut values: Vec<Vec<i32>> = Vec::new();
    let mut i: usize = 0;
    while i < displays.len()
        invariant
            i <= displays.len(),
            keys@.len() == i,
            values@.len() == i,
            forall|j: int|
                0 <= j < i ==> strings_view((#[trigger] keys@[j])@) == display_keys(displays@[j]),
            forall|j: int| 0 <= j < i ==> (#[trigger] values@[j])@ == display_values(displays@[j]),
        decreases displays.len() - i,
    {
        let d = displays[i];
        let mut ks: Vec<String> = Vec::new();
        let mut vs: Vec<i32> = Vec::new();
        ks.push("x".to_owned());
        vs.push(d.x);
        ks.push("y".to_owned());
        vs.push(d.y);
        ks.push("width".to_owned());
        vs.push(d.width);
        ks.push("height".to_owned());
        vs.push(d.height);
        ks.push("cursor_embedded".to_owned());
        vs.push(if d.cursor_embedded { 1 } else { 0 });
        if let Some(original_resolution) = d.original_resolution {
            ks.push("original_width".to_owned());
            vs.push(original_resolution.width);
            ks.push("original_height".to_owned());
            vs.push(original_resolution.height);
        }
        assert(strings_view(ks@) =~= display_keys(d));
        assert(vs@ =~= display_values(d));
        keys.push(ks);
        values.push(vs);
        i += 1;
    }
    proof {
        assert(string_rows_view(keys@) =~= displays@.map_values(|d: DisplayInfo| display_keys(d)));
        assert(int_rows_view(values@) =~= displays@.map_values(|d: DisplayInfo| display_values(d)));
        assert forall|j: int| 0 <= j < keys@.len() implies strings_view(
            (#[trigger] keys@[j])@,
        ).no_duplicates() && keys@[j]@.len() == values@[j]@.len() by {
            lemma_display_keys_differ(displays@[j]);
            assert(strings_view(keys@[j]@).len() == keys@[j]@.len());
        }
    }
    encode_int_records(&keys, &values)
}

/// The text that tells the UI of the resolutions.
pub fn serialize_resolutions(resolutions: &Vec<Resolution>) -> (text: String)
    ensures
        text@ == resolutions_msg(resolutions@),
{
    let mut keys: Vec<Vec<String>> = Vec::new();
    let mut values: Vec<Vec<i32>> = Vec::new();
    let mut i: usize = 0;
    proof {
        reveal_strlit("width");
        reveal_strlit("height");
    }
    while i < resolutions.len()
        invariant
            i <= resolutions.len(),
            keys@.len() == i,
            values@.len() == i,
            "width"@.len() == 5,
            "height"@.len() == 6,
            forall|j: int|
                0 <= j < i ==> strings_view((#[trigger] keys@[j])@) == seq!["width"@, "height"@],
            forall|j: int|
                0 <= j < i ==> (#[trigger] values@[j])@ == seq![
                    resolutions@[j].width,
                    resolutions@[j].height,
                ],
        decreases resolutions.len() - i,
    {
        let r = resolutions[i];
        let mut ks: Vec<String> = Vec::new();
        let mut vs: Vec<i32> = Vec::new();
        ks.push("width".to_owned());
        vs.push(r.width);
        ks.push("height".to_owned());
        vs.push(r.height);
        assert(strings_view(ks@) =~= seq!["width"@, "height"@]);
        assert(vs@ =~= seq![r.width, r.height]);
        keys.push(ks);
        values.push(vs);
        i += 1;
    }
    proof {
        assert(string_rows_view(keys@) =~= resolutions@.map_values(
            |r: Resolution| seq!["width"@, "height"@],
        ));
        assert(int_rows_view(values@) =~= resolutions@.map_values(
            |r: Resolution| seq![r.width, r.height],
        ));
        assert forall|j: int| 0 <= j < keys@.len() implies strings_view(
            (#[trigger] keys@[j])@,
        ).no_duplicates() && keys@[j]@.len() == values@[j]@.len() by {
            assert(strings_view(keys@[j]@).len() == keys@[j]@.len());
        }
    }
    encode_int_records(&keys, &values)
}

/// What a peer can do.
#[derive(Clone, Copy, Debug, PartialEq, Eq, Structural)]
pub struct Features {
    pub privacy_mode: bool,
}

/// What a peer says of itself when the connection is made.
#[derive(Debug)]
pub struct PeerInfo {
    pub username: String,
    pub hostname: String,
    pub platform: String,
    pub sas_enabled: bool,
    pub displays: Vec<DisplayInfo>,
    pub version: String,
    pub features: Option<Features>,
    pub current_display: i32,
    pub resolutions: Vec<Resolution>,
    pub platform_additions: String,
}

/// The mathematical value of a [`PeerInfo`].
pub struct PeerInfoView {
    pub username: Seq<char>,
    pub hostname: Seq<char>,
    pub platform: Seq<char>,
    pub sas_enabled: bool,
    pub displays: Seq<DisplayInfo>,
    pub version: Seq<char>,
    pub features: Option<Features>,
    pub current_display: i32,
    pub resolutions: Seq<Resolution>,
    pub platform_additions: Seq<char>,
}

impl View for PeerInfo {
    type V = PeerInfoView;

    open spec fn view(&self) -> PeerInfoView {
        PeerInfoView {
            username: self.username@,
            hostname: self.hostname@,
            platform: self.platform@,
            sas_enabled: self.sas_enabled,
            displays: self.displays@,
            version: self.version@,
            features: self.features,
            current_display: self.current_display,
            resolutions: self.resolutions@,
            platform_additions: self.platform_additions@,
        }
    }
}

impl PeerInfoView {
    /// What is known of a peer that has said nothing yet.
    pub open spec fn empty() -> PeerInfoView {
        PeerInfoView {
            username: Seq::empty(),
            hostname: Seq::empty(),
            platform: Seq::empty(),
            sas_enabled: false,
            displays: Seq::empty(),
            version: Seq::empty(),
            features: None,
            current_display: 0,
            resolutions: Seq::empty(),
            platform_additions: Seq::empty(),
        }
    }
}

impl PeerInfo {
    /// What is known of a peer that has said nothing yet.
    pub fn new() -> (pi: Self)
        ensures
            pi@ == PeerInfoView::empty(),
    {
        PeerInfo {
            username: String::new(),
            hostname: String::new(),
            platform: String::new(),
            sas_enabled: false,
            displays: Vec::new(),
            version: String::new(),
            features: None,
            current_display: 0,
            resolutions: Vec::new(),
            platform_additions: String::new(),
        }
    }
}

} // verus!
