//! The frame rate of the video source, out of what the television says of it.
//!
//! The answer is a JSON document. Somewhere in it stands a `frameRate`, as a
//! number, as a numeral or as a fraction.
use crate::text::same_text;
use crate::text::split_once;
use crate::text::trim;
use vstd::prelude::*;

verus! {

/// A JSON value of the `serde_json` crate.
#[verifier::external_type_specification]
#[verifier::external_body]
pub struct ExJsonValue(serde_json::Value);

/// What a JSON value holds. Numbers are numerals, and the members of an object
/// stand in the order in which the object hands them out.
pub enum InfoTree {
    Null,
    Bool(bool),
    Number(Seq<char>),
    Text(Seq<char>),
    Array(Seq<InfoTree>),
    Object(Seq<(Seq<char>, InfoTree)>),
}

/// The JSON document that some bytes are, if they are one.
pub uninterp spec fn json_document(bytes: Seq<u8>) -> Option<InfoTree>;

/// What a value of the `serde_json` crate holds.
pub uninterp spec fn json_tree(value: serde_json::Value) -> InfoTree;

/// One level of a JSON value, with the values below it unopened.
pub enum JsonLayer {
    Null,
    Bool(bool),
    Number(String),
    Text(String),
    Array(Vec<serde_json::Value>),
    Object(Vec<(String, serde_json::Value)>),
}

/// The members of an object, with what their values hold.
pub open spec fn json_members(members: Seq<(String, serde_json::Value)>) -> Seq<
    (Seq<char>, InfoTree),
> {
    Seq::new(members.len(), |i: int| (members[i].0@, json_tree(members[i].1)))
}

/// The elements of an array, with what they hold.
pub open spec fn json_elements(elements: Seq<serde_json::Value>) -> Seq<InfoTree> {
    Seq::new(elements.len(), |i: int| json_tree(elements[i]))
}

/// `serde_json::from_slice`, for a value of any shape: whether the bytes are a
/// JSON document, and which, is a function of the bytes alone.
#[verifier::external_body]
fn parse_json(bytes: &[u8]) -> (value: Option<serde_json::Value>)
    ensures
        match value {
            Some(v) => json_document(bytes@) == Some(json_tree(v)),
            None => json_document(bytes@) is None,
        },
{
    serde_json::from_slice(bytes).ok()
}

/// Tells the variants of `serde_json::Value` apart: each becomes the variant of
/// the same name, a number by way of `serde_json::Number`'s own numeral and an
/// object by way of its members in `serde_json::Map`'s order.
#[verifier::external_body]
fn open_json(value: serde_json::Value) -> (layer: JsonLayer)
    ensures
        json_tree(value) == (match layer {
            JsonLayer::Null => InfoTree::Null,
            JsonLayer::Bool(b) => InfoTree::Bool(b),
            JsonLayer::Number(numeral) => InfoTree::Number(numeral@),
            JsonLayer::Text(text) => InfoTree::Text(text@),
            JsonLayer::Array(elements) => InfoTree::Array(json_elements(elements@)),
            JsonLayer::Object(members) => InfoTree::Object(json_members(members@)),
        }),
{
    match value {
        serde_json::Value::Null => JsonLayer::Null,
        serde_json::Value::Bool(b) => JsonLayer::Bool(b),
        serde_json::Value::Number(number) => JsonLayer::Number(number.to_string()),
        serde_json::Value::String(text) => JsonLayer::Text(text),
        serde_json::Value::Array(elements) => JsonLayer::Array(elements),
        serde_json::Value::Object(members) => JsonLayer::Object(members.into_iter().collect()),
    }
}

/// A JSON value.
pub enum VideoInfo {
    Null,
    Bool(bool),
    Number(String),
    Text(String),
    Array(Vec<VideoInfo>),
    Object(Vec<(String, VideoInfo)>),
}

impl VideoInfo {
    /// What the value holds.
    pub open spec fn tree(self) -> InfoTree
        decreases self,
    {
        match self {
            VideoInfo::Null => InfoTree::Null,
            VideoInfo::Bool(b) => InfoTree::Bool(b),
            VideoInfo::Number(numeral) => InfoTree::Number(numeral@),
            VideoInfo::Text(text) => InfoTree::Text(text@),
            VideoInfo::Array(elements) => InfoTree::Array(
                Seq::new(
                    elements@.len(),
                    |i: int|
                        if 0 <= i < elements@.len() {
                            elements@[i].tree()
                        } else {
                            InfoTree::Null
                        },
                ),
            ),
            VideoInfo::Object(members) => InfoTree::Object(
                Seq::new(
                    members@.len(),
                    |i: int|
                        if 0 <= i < members@.len() {
                            (members@[i].0@, members@[i].1.tree())
                        } else {
                            (Seq::empty(), InfoTree::Null)
                        },
                ),
            ),
        }
    }
}

/// Takes a JSON value apart, all the way down.
fn from_json(value: serde_json::Value) -> (info: VideoInfo)
    ensures
        info.tree() == json_tree(value),
    decreases json_tree(value),
{
    match open_json(value) {
        JsonLayer::Null => VideoInfo::Null,
        JsonLayer::Bool(b) => VideoInfo::Bool(b),
        JsonLayer::Number(numeral) => VideoInfo::Number(numeral),
        JsonLayer::Text(text) => VideoInfo::Text(text),
        JsonLayer::Array(elements) => {
            let ghost all = elements@;
            let mut opened: Vec<VideoInfo> = Vec::new();
            for element in iter: elements.into_iter()
                invariant
                    iter.seq() == all,
                    json_tree(value) == InfoTree::Array(json_elements(all)),
                    opened@.len() == iter.index(),
                    forall|k: int|
                        0 <= k < opened@.len() ==> (#[trigger] opened@[k]).tree() == json_tree(
                            all[k],
                        ),
            {
                proof {
                    let whole = json_tree(value);
                    let below = whole->Array_0;
                    assert(below[iter.index()] == json_tree(element));
                    assert(decreases_to!(whole => whole->Array_0));
                    assert(decreases_to!(below => below[iter.index()]));
                    assert(decreases_to!(whole => below[iter.index()]));
                }
                opened.push(from_json(element));
            }
            let info = VideoInfo::Array(opened);
            assert(info.tree()->Array_0 =~= json_elements(all));
            info
        },
        JsonLayer::Object(members) => {
            let ghost all = members@;
            let mut opened: Vec<(String, VideoInfo)> = Vec::new();
            for member in iter: members.into_iter()
                invariant
                    iter.seq() == all,
                    json_tree(value) == InfoTree::Object(json_members(all)),
                    opened@.len() == iter.index(),
                    forall|k: int|
                        0 <= k < opened@.len() ==> (#[trigger] opened@[k]).0@ == all[k].0@
                            && opened@[k].1.tree() == json_tree(all[k].1),
            {
                proof {
                    let whole = json_tree(value);
                    let below = whole->Object_0;
                    let entry = below[iter.index()];
                    assert(entry == (member.0@, json_tree(member.1)));
                    assert(decreases_to!(whole => whole->Object_0));
                    assert(decreases_to!(below => below[iter.index()]));
                    assert(decreases_to!(entry => entry.1));
                    assert(decreases_to!(whole => entry.1));
                }
                opened.push((member.0, from_json(member.1)));
            }
            let info = VideoInfo::Object(opened);
            assert(info.tree()->Object_0 =~= json_members(all));
            info
        },
    }
}

/// The video information in the television's answer, if the answer is a JSON
/// document.
pub fn parse_video_info(answer: &[u8]) -> (info: Option<VideoInfo>)
    ensures
        match info {
            Some(i) => json_document(answer@) == Some(i.tree()),
            None => json_document(answer@) is None,
        },
{
    match parse_json(answer) {
        Some(value) => Some(from_json(value)),
        None => None,
    }
}

/// A frame rate as it is written: a number, a fraction of two numerals, or a
/// numeral.
pub enum FrameRate {
    Number(String),
    Fraction(String, String),
    Numeral(String),
}

/// A written frame rate, as text alone.
pub enum RateText {
    Number(Seq<char>),
    Fraction(Seq<char>, Seq<char>),
    Numeral(Seq<char>),
}

impl FrameRate {
    pub open spec fn text(self) -> RateText {
        match self {
            FrameRate::Number(n) => RateText::Number(n@),
            FrameRate::Fraction(n, d) => RateText::Fraction(n@, d@),
            FrameRate::Numeral(n) => RateText::Numeral(n@),
        }
    }
}

/// The frame rate that a value writes down, if it can be one: a number, or a
/// text, which is a fraction where it has a slash. White space around the parts
/// of a text does not matter.
pub open spec fn written_rate(tree: InfoTree) -> Option<RateText> {
    match tree {
        InfoTree::Number(numeral) => Some(RateText::Number(numeral)),
        InfoTree::Text(text) => match crate::text::parts(crate::text::trimmed(text), '/') {
            Some((numerator, denominator)) => Some(
                RateText::Fraction(
                    crate::text::trimmed(numerator),
                    crate::text::trimmed(denominator),
                ),
            ),
            None => Some(RateText::Numeral(crate::text::trimmed(text))),
        },
        _ => None,
    }
}

/// The value of the first of the first `n` members with the given name.
pub open spec fn member(members: Seq<(Seq<char>, InfoTree)>, name: Seq<char>, n: int) -> Option<
    InfoTree,
>
    decreases n,
{
    if n <= 0 {
        None
    } else {
        match member(members, name, n - 1) {
            Some(value) => Some(value),
            None => if members[n - 1].0 == name {
                Some(members[n - 1].1)
            } else {
                None
            },
        }
    }
}

/// The frame rate that an object itself gives, as a sequence of at most one.
pub open spec fn own_rate(members: Seq<(Seq<char>, InfoTree)>) -> Seq<RateText> {
    match member(members, "frameRate"@, members.len() as int) {
        Some(value) => match written_rate(value) {
            Some(rate) => seq![rate],
            None => Seq::empty(),
        },
        None => Seq::empty(),
    }
}

/// Every frame rate written in a document, in the order in which they are
/// looked for: an object's own first, then those inside its members, each
/// searched to the bottom before the next.
pub open spec fn written_rates(tree: InfoTree) -> Seq<RateText>
    decreases tree, 0nat,
{
    match tree {
        InfoTree::Object(members) => own_rate(members) + rates_of_members(members, members.len()),
        InfoTree::Array(elements) => rates_of_elements(elements, elements.len()),
        _ => Seq::empty(),
    }
}

/// The frame rates inside the first `n` members of an object.
pub open spec fn rates_of_members(members: Seq<(Seq<char>, InfoTree)>, n: nat) -> Seq<RateText>
    decreases members, n,
{
    if n == 0 || n > members.len() {
        Seq::empty()
    } else {
        proof {
            let entry = members[n - 1];
            assert(decreases_to!(members => members[n - 1]));
            assert(decreases_to!(entry => entry.1));
        }
        rates_of_members(members, (n - 1) as nat) + written_rates(members[n - 1].1)
    }
}

/// The frame rates inside the first `n` elements of an array.
pub open spec fn rates_of_elements(elements: Seq<InfoTree>, n: nat) -> Seq<RateText>
    decreases elements, n,
{
    if n == 0 || n > elements.len() {
        Seq::empty()
    } else {
        proof {
            assert(decreases_to!(elements => elements[n - 1]));
        }
        rates_of_elements(elements, (n - 1) as nat) + written_rates(elements[n - 1])
    }
}

/// The texts of written frame rates.
pub open spec fn rate_texts(rates: Seq<FrameRate>) -> Seq<RateText> {
    Seq::new(rates.len(), |i: int| rates[i].text())
}

/// The frame rate that a value writes down, if it can be one.
pub fn parse_frame_rate(value: &VideoInfo) -> (rate: Option<FrameRate>)
    ensures
        match rate {
            Some(r) => written_rate(value.tree()) == Some(r.text()),
            None => written_rate(value.tree()) is None,
        },
{
    match value {
        VideoInfo::Number(numeral) => Some(FrameRate::Number(numeral.clone())),
        VideoInfo::Text(text) => {
            let text = trim(text.as_str());
            match split_once(text, '/') {
                Some((numerator, denominator)) => Some(
                    FrameRate::Fraction(trim(numerator).to_owned(), trim(denominator).to_owned()),
                ),
                None => Some(FrameRate::Numeral(text.to_owned())),
            }
        },
        _ => None,
    }
}

fn find_rate(members: &Vec<(String, VideoInfo)>) -> (rate: Option<FrameRate>)
    ensures
        match rate {
            Some(r) => own_rate(VideoInfo::Object(*members).tree()->Object_0) == seq![r.text()],
            None => own_rate(VideoInfo::Object(*members).tree()->Object_0)
                == Seq::<RateText>::empty(),
        },
{
    let ghost below = VideoInfo::Object(*members).tree()->Object_0;
    for i in 0..members.len()
        invariant
            below == VideoInfo::Object(*members).tree()->Object_0,
            below.len() == members@.len(),
            member(below, "frameRate"@, i as int) is None,
    {
        assert(below[i as int] == (members@[i as int].0@, members@[i as int].1.tree()));
        if same_text(members[i].0.as_str(), "frameRate") {
            proof {
                lemma_first_member_stays(below, "frameRate"@, i + 1, below.len() as int);
            }
            return parse_frame_rate(&members[i].1);
        }
    }
    None
}

proof fn lemma_first_member_stays(
    members: Seq<(Seq<char>, InfoTree)>,
    name: Seq<char>,
    n: int,
    m: int,
)
    requires
        n <= m,
        member(members, name, n) is Some,
    ensures
        member(members, name, m) == member(members, name, n),
    decreases m - n,
{
    if n < m {
        lemma_first_member_stays(members, name, n, m - 1);
    }
}

/// The frame rates written in the television's video information, the one to
/// prefer first. The source runs at the first that can be read as a rate.
pub fn source_fps_from_video_info(info: &VideoInfo) -> (rates: Vec<FrameRate>)
    ensures
        rate_texts(rates@) == written_rates(info.tree()),
    decreases info.tree(),
{
    let mut rates: Vec<FrameRate> = Vec::new();
    match info {
        VideoInfo::Object(members) => {
            let ghost below = info.tree()->Object_0;
            if let Some(rate) = find_rate(members) {
                rates.push(rate);
            }
            assert(rate_texts(rates@) == own_rate(below));
            let ghost own = own_rate(below);
            for i in 0..members.len()
                invariant
                    info.tree() == InfoTree::Object(below),
                    *info == VideoInfo::Object(*members),
                    below.len() == members@.len(),
                    rate_texts(rates@) == own + rates_of_members(below, i as nat),
            {
                let ghost before = rates@;
                proof {
                    let whole = info.tree();
                    let entry = below[i as int];
                    assert(entry == (members@[i as int].0@, members@[i as int].1.tree()));
                    assert(decreases_to!(whole => whole->Object_0));
                    assert(decreases_to!(below => below[i as int]));
                    assert(decreases_to!(entry => entry.1));
                    assert(decreases_to!(whole => entry.1));
                }
                let mut inner = source_fps_from_video_info(&members[i].1);
                let ghost found = inner@;
                rates.append(&mut inner);
                assert(rate_texts(rates@) == rate_texts(before) + rate_texts(found));
            }
        },
        VideoInfo::Array(elements) => {
            let ghost below = info.tree()->Array_0;
            assert(rate_texts(rates@) == Seq::<RateText>::empty());
            for i in 0..elements.len()
                invariant
                    info.tree() == InfoTree::Array(below),
                    *info == VideoInfo::Array(*elements),
                    below.len() == elements@.len(),
                    rate_texts(rates@) == rates_of_elements(below, i as nat),
            {
                let ghost before = rates@;
                proof {
                    let whole = info.tree();
                    assert(below[i as int] == elements@[i as int].tree());
                    assert(decreases_to!(whole => whole->Array_0));
                    assert(decreases_to!(below => below[i as int]));
                    assert(decreases_to!(whole => below[i as int]));
                }
                let mut inner = source_fps_from_video_info(&elements[i]);
                let ghost found = inner@;
                rates.append(&mut inner);
                assert(rate_texts(rates@) == rate_texts(before) + rate_texts(found));
            }
        },
        _ => {
            assert(rate_texts(rates@) == Seq::<RateText>::empty());
        },
    }
    rates
}

/// The frame rates written in the television's answer, the one to prefer
/// first; none, where the answer is no JSON document.
pub fn detect_source_fps(answer: &[u8]) -> (rates: Vec<FrameRate>)
    ensures
        rate_texts(rates@) == (match json_document(answer@) {
            Some(tree) => written_rates(tree),
            None => Seq::empty(),
        }),
{
    match parse_video_info(answer) {
        Some(info) => source_fps_from_video_info(&info),
        None => {
            let rates: Vec<FrameRate> = Vec::new();
            assert(rate_texts(rates@) == Seq::<RateText>::empty());
            rates
        },
    }
}

/// An object's own frame rate comes before any that is nested deeper in it.
pub proof fn own_rate_is_preferred(members: Seq<(Seq<char>, InfoTree)>, rate: RateText)
    requires
        own_rate(members) == seq![rate],
    ensures
        written_rates(InfoTree::Object(members)).len() > 0,
        written_rates(InfoTree::Object(members)).first() == rate,
{
}

/// A number is taken as it is written; a text is a fraction if and only if there is a
/// slash in it, of what stands before the first slash and behind it, each without the
/// blanks around it; nothing else is a rate.
pub proof fn a_rate_is_read_as_it_is_written(
    value: &VideoInfo,
    rate: Option<FrameRate>,
    numeral: String,
    text: &str,
    inner: &str,
    split: Option<(&str, &str)>,
    numerator: &str,
    denominator: &str,
)
    requires
        call_ensures(parse_frame_rate, (value,), rate),
        call_ensures(trim, (text,), inner),
        call_ensures(split_once, (inner, '/'), split),
        split matches Some(both) ==> call_ensures(trim, (both.0,), numerator) && call_ensures(
            trim,
            (both.1,),
            denominator,
        ),
    ensures
        *value == VideoInfo::Number(numeral) ==> (rate matches Some(FrameRate::Number(n)) && n@
            == numeral@),
        (*value matches VideoInfo::Text(t) && t@ == text@) && split is Some ==> (rate matches Some(
            FrameRate::Fraction(n, d),
        ) && n@ == numerator@ && d@ == denominator@),
        (*value matches VideoInfo::Text(t) && t@ == text@) && split is None ==> (rate matches Some(
            FrameRate::Numeral(n),
        ) && n@ == inner@),
        rate is Some <==> *value is Number || *value is Text,
{
}

/// A text that is two numerals around a slash is the fraction of these two, the one
/// before the slash on top.
pub proof fn a_fraction_stands_as_it_is_written(
    value: &VideoInfo,
    rate: Option<FrameRate>,
    top: Seq<char>,
    bottom: Seq<char>,
)
    requires
        call_ensures(parse_frame_rate, (value,), rate),
        *value matches VideoInfo::Text(text) && text@ == top + seq!['/'] + bottom,
        top.len() > 0 && bottom.len() > 0,
        forall|i: int| 0 <= i < top.len() ==> '0' <= #[trigger] top[i] <= '9',
        forall|i: int| 0 <= i < bottom.len() ==> '0' <= #[trigger] bottom[i] <= '9',
    ensures
        rate matches Some(FrameRate::Fraction(n, d)) && n@ == top && d@ == bottom,
{
    let text = top + seq!['/'] + bottom;
    assert(top[0] <= '9' && bottom[bottom.len() - 1] <= '9');
    assert(text.first() == top[0] && text.last() == bottom[bottom.len() - 1]);
    lemma_nothing_to_trim(text);
    crate::text::parts_join_to_the_text(text, '/');
    let split = crate::text::parts(text, '/');
    assert(text[top.len() as int] == '/');
    assert(text.contains('/'));
    let left = split->Some_0.0;
    let right = split->Some_0.1;
    assert(left.len() == top.len()) by {
        if left.len() < top.len() {
            assert(text[left.len() as int] == '/');
            assert(text[left.len() as int] == top[left.len() as int]);
        }
        if left.len() > top.len() {
            assert(left[top.len() as int] == text[top.len() as int]);
            assert(left.contains('/'));
        }
    }
    assert forall|i: int| 0 <= i < top.len() implies left[i] == top[i] by {
        assert(text[i] == left[i]);
    }
    assert(left =~= top);
    assert(right.len() == bottom.len());
    assert forall|i: int| 0 <= i < bottom.len() implies right[i] == bottom[i] by {
        assert(text[top.len() + 1 + i] == right[i]);
    }
    assert(right =~= bottom);
    lemma_nothing_to_trim(top);
    lemma_nothing_to_trim(bottom);
}

proof fn lemma_nothing_to_trim(text: Seq<char>)
    requires
        text.len() > 0,
        '0' <= text.first() <= '9',
        '0' <= text.last() <= '9',
    ensures
        crate::text::trimmed(text) == text,
{
}

proof fn lemma_same_elements(elements: Seq<InfoTree>, other: Seq<InfoTree>, n: nat)
    requires
        n <= elements.len(),
        n <= other.len(),
        forall|i: int| 0 <= i < n ==> #[trigger] elements[i] == other[i],
    ensures
        rates_of_elements(elements, n) == rates_of_elements(other, n),
    decreases n,
{
    if n > 0 {
        lemma_same_elements(elements, other, (n - 1) as nat);
        assert(elements[n - 1] == other[n - 1]);
    }
}

/// A list has the rates of its elements, one element after the other: with one more
/// element, the rates inside that one come last.
pub proof fn a_list_is_searched_in_order(
    list: &VideoInfo,
    shorter: &VideoInfo,
    elements: Vec<VideoInfo>,
    first: Vec<VideoInfo>,
    rates: Vec<FrameRate>,
    first_rates: Vec<FrameRate>,
    last_rates: Vec<FrameRate>,
)
    requires
        *list == VideoInfo::Array(elements),
        *shorter == VideoInfo::Array(first),
        elements@.len() > 0,
        first@ == elements@.drop_last(),
        call_ensures(source_fps_from_video_info, (list,), rates),
        call_ensures(source_fps_from_video_info, (shorter,), first_rates),
        call_ensures(source_fps_from_video_info, (&elements@.last(),), last_rates),
    ensures
        rate_texts(rates@) == rate_texts(first_rates@) + rate_texts(last_rates@),
        elements@.len() == 1 ==> rate_texts(rates@) == rate_texts(last_rates@),
{
    let all = list.tree()->Array_0;
    let some = shorter.tree()->Array_0;
    let n = first@.len();
    assert forall|i: int| 0 <= i < n implies #[trigger] all[i] == some[i] by {
        assert(first@[i] == elements@[i]);
    }
    lemma_same_elements(all, some, n);
    assert(all[n as int] == elements@.last().tree());
    assert(rates_of_elements(all, n + 1) == rates_of_elements(all, n) + written_rates(
        all[n as int],
    ));
    if n == 0 {
        assert(rate_texts(first_rates@) == Seq::<RateText>::empty());
        assert(rate_texts(rates@) =~= rate_texts(last_rates@));
    }
}

proof fn lemma_members_as_elements(
    members: Seq<(Seq<char>, InfoTree)>,
    elements: Seq<InfoTree>,
    n: nat,
)
    requires
        n <= members.len(),
        n <= elements.len(),
        forall|i: int| 0 <= i < n ==> #[trigger] elements[i] == members[i].1,
    ensures
        rates_of_members(members, n) == rates_of_elements(elements, n),
    decreases n,
{
    if n > 0 {
        lemma_members_as_elements(members, elements, (n - 1) as nat);
        assert(elements[n - 1] == members[n - 1].1);
    }
}

proof fn lemma_member_at(members: Seq<(Seq<char>, InfoTree)>, name: Seq<char>, at: int)
    requires
        0 <= at <= members.len(),
        forall|i: int| 0 <= i < at ==> (#[trigger] members[i]).0 != name,
    ensures
        member(members, name, at) is None,
        at < members.len() && members[at].0 == name ==> member(
            members,
            name,
            members.len() as int,
        ) == Some(members[at].1),
    decreases at,
{
    if at > 0 {
        lemma_member_at(members, name, at - 1);
        assert(members[at - 1].0 != name);
    }
    if at < members.len() && members[at].0 == name {
        lemma_first_member_stays(members, name, at + 1, members.len() as int);
    }
}

/// An object has the rates of a list of its values, whatever the members are called;
/// the rate that its first `frameRate` writes down comes before them all.
pub proof fn an_object_gives_its_own_rate_first(
    object: &VideoInfo,
    members: Vec<(String, VideoInfo)>,
    list: &VideoInfo,
    values: Vec<VideoInfo>,
    at: int,
    rates: Vec<FrameRate>,
    list_rates: Vec<FrameRate>,
    own: Option<FrameRate>,
)
    requires
        *object == VideoInfo::Object(members),
        *list == VideoInfo::Array(values),
        values@ == Seq::new(members@.len(), |i: int| members@[i].1),
        call_ensures(source_fps_from_video_info, (object,), rates),
        call_ensures(source_fps_from_video_info, (list,), list_rates),
        0 <= at <= members@.len(),
        forall|i: int| 0 <= i < at ==> (#[trigger] members@[i]).0@ != "frameRate"@,
        at < members@.len() ==> members@[at].0@ == "frameRate"@ && call_ensures(
            parse_frame_rate,
            (&members@[at].1,),
            own,
        ),
        at == members@.len() ==> own is None,
    ensures
        own is None ==> rate_texts(rates@) == rate_texts(list_rates@),
        own matches Some(rate) ==> rate_texts(rates@) == seq![rate.text()] + rate_texts(
            list_rates@,
        ),
{
    let below = object.tree()->Object_0;
    let all = list.tree()->Array_0;
    assert forall|i: int| 0 <= i < all.len() implies #[trigger] all[i] == below[i].1 by {
        assert(values@[i] == members@[i].1);
    }
    lemma_members_as_elements(below, all, below.len());
    assert forall|i: int| 0 <= i < at implies (#[trigger] below[i]).0 != "frameRate"@ by {
        assert(below[i].0 == members@[i].0@);
    }
    lemma_member_at(below, "frameRate"@, at);
    if at < members@.len() {
        assert(below[at] == (members@[at].0@, members@[at].1.tree()));
    }
    assert(own_rate(below) == (match own {
        Some(rate) => seq![rate.text()],
        None => Seq::<RateText>::empty(),
    }));
    assert(rate_texts(rates@) =~= own_rate(below) + rate_texts(list_rates@));
    if own is None {
        assert(rate_texts(rates@) =~= rate_texts(list_rates@));
    }
}

/// A single value has no rate in it, and the television's answer has those of the
/// document that it is.
pub proof fn an_answer_has_the_rates_of_its_document(
    single: &VideoInfo,
    no_rates: Vec<FrameRate>,
    answer: &[u8],
    parsed: Option<VideoInfo>,
    info: VideoInfo,
    rates: Vec<FrameRate>,
    info_rates: Vec<FrameRate>,
)
    requires
        !(*single is Object) && !(*single is Array),
        call_ensures(source_fps_from_video_info, (single,), no_rates),
        call_ensures(detect_source_fps, (answer,), rates),
        call_ensures(parse_video_info, (answer,), parsed),
        call_ensures(source_fps_from_video_info, (&info,), info_rates),
    ensures
        no_rates@.len() == 0,
        parsed == Some(info) ==> rate_texts(rates@) == rate_texts(info_rates@),
        parsed is None ==> rates@.len() == 0,
{
    assert(rate_texts(no_rates@).len() == no_rates@.len());
    assert(rate_texts(rates@).len() == rates@.len());
}

} // verus!
