use vstd::prelude::*;

use crate::json::{json_array, json_docs, json_get, json_str, json_view, parse_docs, JsonV};
use crate::strings::{contains_seq, str_contains, string_list_contains, views_of};

verus! {

/// Mathematical content of one build event: the record kind, the package
/// that produced it, the target kinds of the compiled target, and the list
/// of produced files (`None` when the record carries no well-formed list).
#[verifier::ext_equal]
pub struct EventView {
    pub reason: Seq<char>,
    pub package_id: Seq<char>,
    pub kinds: Seq<Seq<char>>,
    pub filenames: Option<Seq<Seq<char>>>,
}

/// One structured record of the build tool's event stream, reduced to the
/// fields the artifact selection reads.
pub struct BuildEvent {
    pub reason: String,
    pub package_id: String,
    pub kinds: Vec<String>,
    pub filenames: Option<Vec<String>>,
}

impl View for BuildEvent {
    type V = EventView;

    open spec fn view(&self) -> EventView {
        EventView {
            reason: self.reason@,
            package_id: self.package_id@,
            kinds: views_of(self.kinds@),
            filenames: match self.filenames {
                Option::Some(f) => Option::Some(views_of(f@)),
                Option::None => Option::None,
            },
        }
    }
}

/// The pair that picks the relevant artifact among many events: a substring
/// of the package identifier and one required target kind.
pub struct Selector {
    pub package_substr: String,
    pub kind: String,
}

#[verifier::ext_equal]
pub struct SelectorView {
    pub package_substr: Seq<char>,
    pub kind: Seq<char>,
}

impl View for Selector {
    type V = SelectorView;

    open spec fn view(&self) -> SelectorView {
        SelectorView { package_substr: self.package_substr@, kind: self.kind@ }
    }
}

/// How artifact extraction can fail: the stream is not a sequence of
/// structured records, or the selected record's file list is malformed.
#[derive(Clone, Copy, Debug, PartialEq, Eq)]
pub enum ExtractError {
    MalformedStream,
    MalformedArtifactList,
}

pub open spec fn all_strings(s: Seq<JsonV>) -> bool {
    forall|i: int| 0 <= i < s.len() ==> (#[trigger] s[i]) is Str
}

pub open spec fn str_items(s: Seq<JsonV>) -> Seq<Seq<char>> {
    Seq::new(s.len(), |i: int| s[i]->Str_0)
}

pub open spec fn obj_str(m: Map<Seq<char>, JsonV>, k: Seq<char>) -> Seq<char> {
    if m.contains_key(k) && m[k] is Str {
        m[k]->Str_0
    } else {
        Seq::<char>::empty()
    }
}

/// The target kinds carried by a record: the strings under `target.kind`
/// when that path holds an array of strings, nothing otherwise.
pub open spec fn kinds_of(m: Map<Seq<char>, JsonV>) -> Seq<Seq<char>> {
    if m.contains_key("target"@) {
        match m["target"@] {
            JsonV::Obj(tm) => {
                if tm.contains_key("kind"@) {
                    match tm["kind"@] {
                        JsonV::Arr(items) => {
                            if all_strings(items) {
                                str_items(items)
                            } else {
                                Seq::<Seq<char>>::empty()
                            }
                        },
                        _ => Seq::<Seq<char>>::empty(),
                    }
                } else {
                    Seq::<Seq<char>>::empty()
                }
            },
            _ => Seq::<Seq<char>>::empty(),
        }
    } else {
        Seq::<Seq<char>>::empty()
    }
}

/// The file list carried by a record: `Some` of the strings under
/// `filenames` when that field holds an array of strings, `None` otherwise.
pub open spec fn filenames_of(m: Map<Seq<char>, JsonV>) -> Option<Seq<Seq<char>>> {
    if m.contains_key("filenames"@) {
        match m["filenames"@] {
            JsonV::Arr(items) => {
                if all_strings(items) {
                    Option::Some(str_items(items))
                } else {
                    Option::None
                }
            },
            _ => Option::None,
        }
    } else {
        Option::None
    }
}

/// The event a JSON document denotes: a record is an event exactly when it
/// is an object whose `reason` field is a string.
pub open spec fn event_of_json(j: JsonV) -> Option<EventView> {
    match j {
        JsonV::Obj(m) => {
            if m.contains_key("reason"@) && m["reason"@] is Str {
                Option::Some(
                    EventView {
                        reason: m["reason"@]->Str_0,
                        package_id: obj_str(m, "package_id"@),
                        kinds: kinds_of(m),
                        filenames: filenames_of(m),
                    },
                )
            } else {
                Option::None
            }
        },
        _ => Option::None,
    }
}

fn strings_of(arr: &Vec<serde_json::Value>) -> (r: Option<Vec<String>>)
    ensures
        r is Some <==> all_strings(Seq::new(arr@.len(), |i: int| json_view(arr@[i]))),
        r matches Some(v) ==> views_of(v@) == str_items(
            Seq::new(arr@.len(), |i: int| json_view(arr@[i])),
        ),
{
    let ghost js = Seq::new(arr@.len(), |i: int| json_view(arr@[i]));
    let mut out: Vec<String> = Vec::new();
    let mut i: usize = 0;
    while i < arr.len()
        invariant
            js == Seq::new(arr@.len(), |k: int| json_view(arr@[k])),
            0 <= i <= arr@.len(),
            out@.len() == i,
            forall|k: int| 0 <= k < i ==> (#[trigger] js[k]) is Str && out@[k]@ == js[k]->Str_0,
        decreases arr@.len() - i,
    {
        match json_str(&arr[i]) {
            Option::Some(s) => {
                out.push(s);
            },
            Option::None => {
                assert(!(js[i as int] is Str));
                return Option::None;
            },
        }
        i += 1;
    }
    assert(views_of(out@) =~= str_items(js));
    Option::Some(out)
}

/// Decodes one JSON document into a build event, exactly as
/// `event_of_json` reads the document's model.
pub fn value_event(v: &serde_json::Value) -> (r: Option<BuildEvent>)
    ensures
        r is Some <==> event_of_json(json_view(*v)) is Some,
        r matches Some(e) ==> event_of_json(json_view(*v)) == Option::Some(e@),
{
    let reason = match json_get(v, "reason") {
        Option::Some(rv) => match json_str(rv) {
            Option::Some(s) => s,
            Option::None => {
                return Option::None;
            },
        },
        Option::None => {
            return Option::None;
        },
    };
    let package_id = match json_get(v, "package_id") {
        Option::Some(pv) => match json_str(pv) {
            Option::Some(s) => s,
            Option::None => String::new(),
        },
        Option::None => String::new(),
    };
    let kinds = match json_get(v, "target") {
        Option::Some(tv) => match json_get(tv, "kind") {
            Option::Some(kv) => match json_array(kv) {
                Option::Some(items) => match strings_of(items) {
                    Option::Some(ss) => ss,
                    Option::None => Vec::new(),
                },
                Option::None => Vec::new(),
            },
            Option::None => Vec::new(),
        },
        Option::None => Vec::new(),
    };
    let filenames = match json_get(v, "filenames") {
        Option::Some(fv) => match json_array(fv) {
            Option::Some(items) => strings_of(items),
            Option::None => Option::None,
        },
        Option::None => Option::None,
    };
    let ev = BuildEvent { reason, package_id, kinds, filenames };
    proof {
        assert(views_of(Seq::<String>::empty()) =~= Seq::<Seq<char>>::empty());
        assert(ev@ =~= event_of_json(json_view(*v)).unwrap());
    }
    Option::Some(ev)
}

/// Decodes every document of a stream; `None` as soon as one of them is not
/// a build event.
pub fn events_of_values(vals: &Vec<serde_json::Value>) -> (r: Option<Vec<BuildEvent>>)
    ensures
        r is Some <==> (forall|i: int|
            0 <= i < vals@.len() ==> event_of_json(json_view(#[trigger] vals@[i])) is Some),
        r matches Some(es) ==> es@.len() == vals@.len() && (forall|i: int|
            0 <= i < vals@.len() ==> event_of_json(json_view(#[trigger] vals@[i]))
                == Option::Some(es@[i]@)),
{
    let mut out: Vec<BuildEvent> = Vec::new();
    let mut i: usize = 0;
    while i < vals.len()
        invariant
            0 <= i <= vals@.len(),
            out@.len() == i,
            forall|k: int|
                0 <= k < i ==> event_of_json(json_view(#[trigger] vals@[k])) == Option::Some(
                    out@[k]@,
                ),
        decreases vals@.len() - i,
    {
        match value_event(&vals[i]) {
            Option::Some(e) => {
                out.push(e);
            },
            Option::None => {
                return Option::None;
            },
        }
        i += 1;
    }
    Option::Some(out)
}

/// A record is selected when it reports a produced compiler artifact, its
/// package identifier contains the selector's package substring, and the
/// requested target kind is among its target kinds.
pub open spec fn event_matches(e: EventView, sel: SelectorView) -> bool {
    &&& e.reason == "compiler-artifact"@
    &&& contains_seq(e.package_id, sel.package_substr)
    &&& e.kinds.contains(sel.kind)
}

/// The last selected record of the stream, the authoritative one.
pub open spec fn last_match(evs: Seq<EventView>, sel: SelectorView) -> Option<EventView>
    decreases evs.len(),
{
    if evs.len() == 0 {
        Option::None
    } else if event_matches(evs.last(), sel) {
        Option::Some(evs.last())
    } else {
        last_match(evs.drop_last(), sel)
    }
}

/// The last record rules: appending a selected record makes it the
/// authoritative one, however many selected or unselected records precede
/// it; appending an unselected record changes nothing.
pub proof fn lemma_last_match_append(evs: Seq<EventView>, e: EventView, sel: SelectorView)
    ensures
        event_matches(e, sel) ==> last_match(evs.push(e), sel) == Option::Some(e),
        !event_matches(e, sel) ==> last_match(evs.push(e), sel) == last_match(evs, sel),
{
    assert(evs.push(e).last() == e);
    assert(evs.push(e).drop_last() =~= evs);
}

/// A stream in which no record is selected selects nothing, so extraction
/// hands out the empty list rather than an error.
pub proof fn lemma_no_match_selects_none(evs: Seq<EventView>, sel: SelectorView)
    requires
        forall|i: int| 0 <= i < evs.len() ==> !event_matches(#[trigger] evs[i], sel),
    ensures
        last_match(evs, sel) is None,
    decreases evs.len(),
{
    if evs.len() > 0 {
        assert(!event_matches(evs.last(), sel));
        lemma_no_match_selects_none(evs.drop_last(), sel);
    }
}

pub open spec fn events_view(s: Seq<BuildEvent>) -> Seq<EventView> {
    Seq::new(s.len(), |i: int| s[i]@)
}

/// Decides `event_matches(e@, sel@)`.
pub fn is_match(e: &BuildEvent, sel: &Selector) -> (r: bool)
    ensures
        r == event_matches(e@, sel@),
{
    let artifact: String = "compiler-artifact".to_owned();
    e.reason.eq(&artifact) && str_contains(e.package_id.as_str(), sel.package_substr.as_str())
        && string_list_contains(&e.kinds, &sel.kind)
}

fn clone_strings(v: &Vec<String>) -> (r: Vec<String>)
    ensures
        views_of(r@) == views_of(v@),
{
    let mut out: Vec<String> = Vec::new();
    let mut i: usize = 0;
    while i < v.len()
        invariant
            0 <= i <= v@.len(),
            out@.len() == i,
            forall|k: int| 0 <= k < i ==> out@[k]@ == v@[k]@,
        decreases v@.len() - i,
    {
        out.push(v[i].clone());
        i += 1;
    }
    assert(views_of(out@) =~= views_of(v@));
    out
}

/// The predicate-and-reduce pass over an already decoded stream: keeps the
/// selected records, takes the last one, and hands out its file list. An
/// empty result is not an error; a selected record without a well-formed
/// file list is.
pub fn select_artifacts(events: &Vec<BuildEvent>, sel: &Selector) -> (r: Result<
    Vec<String>,
    ExtractError,
>)
    ensures
        match last_match(events_view(events@), sel@) {
            Option::None => r matches Ok(v) && v@.len() == 0,
            Option::Some(e) => match e.filenames {
                Option::Some(f) => r matches Ok(v) && views_of(v@) == f,
                Option::None => r matches Err(er) && er == ExtractError::MalformedArtifactList,
            },
        },
{
    let ghost evs = events_view(events@);
    let mut i: usize = events.len();
    proof {
        assert(evs.take(i as int) =~= evs);
    }
    while i > 0
        invariant
            evs == events_view(events@),
            0 <= i <= events@.len(),
            last_match(evs, sel@) == last_match(evs.take(i as int), sel@),
        decreases i,
    {
        let idx = i - 1;
        assert(evs.take(i as int).last() == evs[idx as int]);
        if is_match(&events[idx], sel) {
            assert(last_match(evs, sel@) == Option::Some(evs[idx as int]));
            match &events[idx].filenames {
                Option::Some(f) => {
                    let out = clone_strings(f);
                    return Result::Ok(out);
                },
                Option::None => {
                    return Result::Err(ExtractError::MalformedArtifactList);
                },
            }
        }
        assert(evs.take(i as int).drop_last() =~= evs.take(idx as int));
        i = idx;
    }
    assert(evs.take(0).len() == 0);
    Result::Ok(Vec::new())
}

pub open spec fn all_events(js: Seq<JsonV>) -> bool {
    forall|i: int| 0 <= i < js.len() ==> event_of_json(#[trigger] js[i]) is Some
}

pub open spec fn docs_events(js: Seq<JsonV>) -> Seq<EventView> {
    Seq::new(js.len(), |i: int| event_of_json(js[i]).unwrap())
}

/// What extraction returns for a captured byte stream: the file list of the
/// last selected record, the empty list when no record is selected, and an
/// error when the stream or the selected record's file list is malformed.
pub open spec fn extraction(s: Seq<u8>, sel: SelectorView) -> Result<Seq<Seq<char>>, ExtractError> {
    match json_docs(s) {
        Option::None => Result::Err(ExtractError::MalformedStream),
        Option::Some(js) => {
            if !all_events(js) {
                Result::Err(ExtractError::MalformedStream)
            } else {
                match last_match(docs_events(js), sel) {
                    Option::None => Result::Ok(Seq::<Seq<char>>::empty()),
                    Option::Some(e) => match e.filenames {
                        Option::Some(f) => Result::Ok(f),
                        Option::None => Result::Err(ExtractError::MalformedArtifactList),
                    },
                }
            }
        },
    }
}

/// Runs the whole artifact-extraction pass over the bytes captured from the
/// build tool's standard output.
pub fn extract_artifacts(out: &Vec<u8>, sel: &Selector) -> (r: Result<Vec<String>, ExtractError>)
    ensures
        r is Ok <==> extraction(out@, sel@) is Ok,
        r matches Ok(v) ==> extraction(out@, sel@) == Result::<
            Seq<Seq<char>>,
            ExtractError,
        >::Ok(views_of(v@)),
        r matches Err(e) ==> extraction(out@, sel@) == Result::<
            Seq<Seq<char>>,
            ExtractError,
        >::Err(e),
{
    let vals = match parse_docs(out) {
        Option::Some(vs) => vs,
        Option::None => {
            return Result::Err(ExtractError::MalformedStream);
        },
    };
    let ghost js = Seq::new(vals@.len(), |i: int| json_view(vals@[i]));
    let events = match events_of_values(&vals) {
        Option::Some(es) => es,
        Option::None => {
            proof {
                let i = choose|i: int|
                    0 <= i < vals@.len() && !(event_of_json(
                        json_view(#[trigger] vals@[i]),
                    ) is Some);
                assert(js[i] == json_view(vals@[i]));
                assert(!all_events(js));
            }
            return Result::Err(ExtractError::MalformedStream);
        },
    };
    proof {
        assert(json_docs(out@) is Some);
        assert(json_docs(out@).unwrap() =~= js);
        assert(json_docs(out@) == Option::Some(js));
        assert forall|i: int| 0 <= i < js.len() implies event_of_json(#[trigger] js[i]) is Some by {
            assert(js[i] == json_view(vals@[i]));
            assert(event_of_json(json_view(vals@[i])) is Some);
        }
        assert(all_events(js));
        assert forall|i: int|
            0 <= i < js.len() implies docs_events(js)[i] == events_view(events@)[i] by {
            assert(js[i] == json_view(vals@[i]));
            assert(event_of_json(json_view(vals@[i])) == Option::Some(events@[i]@));
        }
        assert(docs_events(js) =~= events_view(events@));
    }
    let res = select_artifacts(&events, sel);
    proof {
        match &res {
            Result::Ok(v) => {
                if v@.len() == 0 {
                    assert(views_of(v@) =~= Seq::<Seq<char>>::empty());
                }
            },
            Result::Err(_) => {},
        }
    }
    res
}

} // verus!
