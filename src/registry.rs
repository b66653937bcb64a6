use vstd::prelude::*;
use crate::json::{JsonValue, json_document, get_str_spec, get_spec, parse_json};

verus! {

/// A platform support package as the toolchain lists it.
#[derive(Debug, Clone)]
pub struct CoreInfo {
    pub id: String,
    pub installed: String,
    pub latest: String,
    pub name: String,
}

/// The fields of a core record: id, installed version, latest version, name.
pub type CoreModel = (Seq<char>, Seq<char>, Seq<char>, Seq<char>);

impl CoreInfo {
    pub open spec fn model(&self) -> CoreModel {
        (self.id@, self.installed@, self.latest@, self.name@)
    }
}

/// A board that an installed core supports.
#[derive(Debug, Clone)]
pub struct BoardInfo {
    pub name: String,
    pub fqbn: String,
}

impl BoardInfo {
    pub open spec fn model(&self) -> (Seq<char>, Seq<char>) {
        (self.name@, self.fqbn@)
    }
}

/// Whether the core that a board needs is installed, and whether it ships
/// with the application.
#[derive(Debug, Clone)]
pub struct CoreStatus {
    pub core_id: String,
    pub installed: bool,
    pub bundled: bool,
}

pub open spec fn core_models(v: Seq<CoreInfo>) -> Seq<CoreModel> {
    v.map_values(|c: CoreInfo| c.model())
}

pub open spec fn board_models(v: Seq<BoardInfo>) -> Seq<(Seq<char>, Seq<char>)> {
    v.map_values(|b: BoardInfo| b.model())
}

/// The results of `f` on the elements of `s` that give one, in order.
pub open spec fn keep_some<A, B>(s: Seq<A>, f: spec_fn(A) -> Option<B>) -> Seq<B>
    decreases s.len(),
{
    if s.len() == 0 {
        Seq::empty()
    } else {
        let head = keep_some(s.drop_last(), f);
        match f(s.last()) {
            Some(b) => head.push(b),
            None => head,
        }
    }
}

/// A listed installed core: id, installed version and name are required;
/// the latest version defaults to the installed one.
pub open spec fn installed_core_spec(item: JsonValue) -> Option<CoreModel> {
    match (get_str_spec(item, "id"@), get_str_spec(item, "installed_version"@), get_str_spec(item, "name"@)) {
        (Some(id), Some(inst), Some(name)) => {
            let latest = match get_str_spec(item, "latest_version"@) {
                Some(l) => l,
                None => inst,
            };
            Some((id, inst, latest, name))
        },
        _ => None,
    }
}

/// A search hit: id and name are required; missing versions are empty.
pub open spec fn searched_core_spec(item: JsonValue) -> Option<CoreModel> {
    match (get_str_spec(item, "id"@), get_str_spec(item, "name"@)) {
        (Some(id), Some(name)) => {
            let inst = match get_str_spec(item, "installed_version"@) {
                Some(v) => v,
                None => Seq::empty(),
            };
            let latest = match get_str_spec(item, "latest_version"@) {
                Some(v) => v,
                None => Seq::empty(),
            };
            Some((id, inst, latest, name))
        },
        _ => None,
    }
}

/// A listed board: name and fully qualified board name are required.
pub open spec fn board_spec(item: JsonValue) -> Option<(Seq<char>, Seq<char>)> {
    match (get_str_spec(item, "name"@), get_str_spec(item, "fqbn"@)) {
        (Some(name), Some(fqbn)) => Some((name, fqbn)),
        _ => None,
    }
}

/// The elements of a top-level array; nothing for any other document.
pub open spec fn array_items(doc: JsonValue) -> Seq<JsonValue> {
    match doc {
        JsonValue::Array(items) => items@,
        _ => Seq::empty(),
    }
}

/// The installed cores that a `core list` document describes.
pub open spec fn installed_cores_of(doc: JsonValue) -> Seq<CoreModel> {
    keep_some(array_items(doc), |v: JsonValue| installed_core_spec(v))
}

/// The cores that a `core search` document describes.
pub open spec fn searched_cores_of(doc: JsonValue) -> Seq<CoreModel> {
    keep_some(array_items(doc), |v: JsonValue| searched_core_spec(v))
}

/// The boards under the `boards` member of a `board listall` document.
pub open spec fn boards_of(doc: JsonValue) -> Seq<(Seq<char>, Seq<char>)> {
    match get_spec(doc, "boards"@) {
        Some(b) => keep_some(array_items(b), |v: JsonValue| board_spec(v)),
        None => Seq::empty(),
    }
}

fn installed_core_of(item: &JsonValue) -> (r: Option<CoreInfo>)
    ensures
        r is Some <==> installed_core_spec(*item) is Some,
        r is Some ==> installed_core_spec(*item) == Some(r->Some_0.model()),
{
    match (item.get_str("id"), item.get_str("installed_version"), item.get_str("name")) {
        (Some(id), Some(inst), Some(name)) => {
            let latest = match item.get_str("latest_version") {
                Some(l) => l.clone(),
                None => inst.clone(),
            };
            Some(CoreInfo { id: id.clone(), installed: inst.clone(), latest, name: name.clone() })
        },
        _ => None,
    }
}

fn searched_core_of(item: &JsonValue) -> (r: Option<CoreInfo>)
    ensures
        r is Some <==> searched_core_spec(*item) is Some,
        r is Some ==> searched_core_spec(*item) == Some(r->Some_0.model()),
{
    match (item.get_str("id"), item.get_str("name")) {
        (Some(id), Some(name)) => {
            let installed = match item.get_str("installed_version") {
                Some(v) => v.clone(),
                None => String::new(),
            };
            let latest = match item.get_str("latest_version") {
                Some(v) => v.clone(),
                None => String::new(),
            };
            Some(CoreInfo { id: id.clone(), installed, latest, name: name.clone() })
        },
        _ => None,
    }
}

fn board_of(item: &JsonValue) -> (r: Option<BoardInfo>)
    ensures
        r is Some <==> board_spec(*item) is Some,
        r is Some ==> board_spec(*item) == Some(r->Some_0.model()),
{
    match (item.get_str("name"), item.get_str("fqbn")) {
        (Some(name), Some(fqbn)) => Some(BoardInfo { name: name.clone(), fqbn: fqbn.clone() }),
        _ => None,
    }
}

/// The installed cores that a `core list` document describes, skipping
/// entries that lack a required field.
pub fn cores_from_list(doc: &JsonValue) -> (r: Vec<CoreInfo>)
    ensures
        core_models(r@) == installed_cores_of(*doc),
{
    let mut out: Vec<CoreInfo> = Vec::new();
    if let JsonValue::Array(items) = doc {
        let mut i: usize = 0;
        while i < items.len()
            invariant
                i <= items.len(),
                array_items(*doc) == items@,
                core_models(out@) == keep_some(items@.take(i as int), |v: JsonValue| installed_core_spec(v)),
            decreases items.len() - i,
        {
            let ghost before = out@;
            let c = installed_core_of(&items[i]);
            if let Some(c) = c {
                out.push(c);
                assert(core_models(out@) =~= core_models(before).push(c.model()));
            } else {
                assert(out@ == before);
            }
            proof {
                assert(items@.take(i + 1).drop_last() =~= items@.take(i as int));
                assert(items@.take(i + 1).last() == items@[i as int]);
                assert(core_models(out@) =~= keep_some(items@.take(i + 1), |v: JsonValue| installed_core_spec(v)));
            }
            i = i + 1;
        }
        assert(items@.take(items.len() as int) =~= items@);
    }
    proof {
        assert(core_models(out@) =~= installed_cores_of(*doc));
    }
    out
}

/// The cores that a `core search` document describes, skipping entries
/// that lack an id or a name.
pub fn cores_from_search(doc: &JsonValue) -> (r: Vec<CoreInfo>)
    ensures
        core_models(r@) == searched_cores_of(*doc),
{
    let mut out: Vec<CoreInfo> = Vec::new();
    if let JsonValue::Array(items) = doc {
        let mut i: usize = 0;
        while i < items.len()
            invariant
                i <= items.len(),
                array_items(*doc) == items@,
                core_models(out@) == keep_some(items@.take(i as int), |v: JsonValue| searched_core_spec(v)),
            decreases items.len() - i,
        {
            let ghost before = out@;
            let c = searched_core_of(&items[i]);
            if let Some(c) = c {
                out.push(c);
                assert(core_models(out@) =~= core_models(before).push(c.model()));
            } else {
                assert(out@ == before);
            }
            proof {
                assert(items@.take(i + 1).drop_last() =~= items@.take(i as int));
                assert(items@.take(i + 1).last() == items@[i as int]);
                assert(core_models(out@) =~= keep_some(items@.take(i + 1), |v: JsonValue| searched_core_spec(v)));
            }
            i = i + 1;
        }
        assert(items@.take(items.len() as int) =~= items@);
    }
    proof {
        assert(core_models(out@) =~= searched_cores_of(*doc));
    }
    out
}

/// The boards that a `board listall` document describes, skipping entries
/// that lack a name or a board identifier.
pub fn boards_from_list(doc: &JsonValue) -> (r: Vec<BoardInfo>)
    ensures
        board_models(r@) == boards_of(*doc),
{
    let mut out: Vec<BoardInfo> = Vec::new();
    if let Some(JsonValue::Array(items)) = doc.get("boards") {
        let mut i: usize = 0;
        while i < items.len()
            invariant
                i <= items.len(),
                board_models(out@) == keep_some(items@.take(i as int), |v: JsonValue| board_spec(v)),
            decreases items.len() - i,
        {
            let ghost before = out@;
            let b = board_of(&items[i]);
            if let Some(b) = b {
                out.push(b);
                assert(board_models(out@) =~= board_models(before).push(b.model()));
            } else {
                assert(out@ == before);
            }
            proof {
                assert(items@.take(i + 1).drop_last() =~= items@.take(i as int));
                assert(items@.take(i + 1).last() == items@[i as int]);
                assert(board_models(out@) =~= keep_some(items@.take(i + 1), |v: JsonValue| board_spec(v)));
            }
            i = i + 1;
        }
        assert(items@.take(items.len() as int) =~= items@);
    }
    proof {
        assert(board_models(out@) =~= boards_of(*doc));
    }
    out
}

/// Turns the output of `core list --format json` into core records: the
/// tool's error output when it failed, otherwise every listed entry with an
/// id, an installed version and a name.
pub fn list_installed_cores(success: bool, stdout: &[u8], stderr: &str) -> (r: Result<Vec<CoreInfo>, String>)
    ensures
        !success ==> (r matches Err(e) && e@ == stderr@),
        success ==> (r is Ok <==> json_document(stdout@) is Some),
        r is Ok ==> core_models(r->Ok_0@) == installed_cores_of(json_document(stdout@)->Some_0),
{
    if !success {
        return Err(String::from_str(stderr));
    }
    match parse_json(stdout) {
        Ok(doc) => Ok(cores_from_list(&doc)),
        Err(e) => Err(e),
    }
}

/// Turns the output of `core search <query> --format json` into core
/// records: the tool's error output when it failed, otherwise every entry
/// with an id and a name.
pub fn search_cores(success: bool, stdout: &[u8], stderr: &str) -> (r: Result<Vec<CoreInfo>, String>)
    ensures
        !success ==> (r matches Err(e) && e@ == stderr@),
        success ==> (r is Ok <==> json_document(stdout@) is Some),
        r is Ok ==> core_models(r->Ok_0@) == searched_cores_of(json_document(stdout@)->Some_0),
{
    if !success {
        return Err(String::from_str(stderr));
    }
    match parse_json(stdout) {
        Ok(doc) => Ok(cores_from_search(&doc)),
        Err(e) => Err(e),
    }
}

/// Turns the output of `board listall --format json` into board records:
/// the tool's error output when it failed, otherwise every entry of the
/// `boards` array with a name and a board identifier.
pub fn list_installed_boards(success: bool, stdout: &[u8], stderr: &str) -> (r: Result<Vec<BoardInfo>, String>)
    ensures
        !success ==> (r matches Err(e) && e@ == stderr@),
        success ==> (r is Ok <==> json_document(stdout@) is Some),
        r is Ok ==> board_models(r->Ok_0@) == boards_of(json_document(stdout@)->Some_0),
{
    if !success {
        return Err(String::from_str(stderr));
    }
    match parse_json(stdout) {
        Ok(doc) => Ok(boards_from_list(&doc)),
        Err(e) => Err(e),
    }
}

/// Number of colons in `s`.
pub open spec fn colons(s: Seq<char>) -> nat
    decreases s.len(),
{
    if s.len() == 0 {
        0
    } else {
        colons(s.drop_last()) + if s.last() == ':' { 1nat } else { 0nat }
    }
}

/// Position `j` of `f` holds its second colon.
pub open spec fn is_second_colon(f: Seq<char>, j: int) -> bool {
    0 <= j < f.len() && f[j] == ':' && colons(f.take(j)) == 1
}

/// The core that a board identifier names: its first two colon-separated
/// segments, or the whole identifier when it has fewer than two colons.
pub open spec fn core_id_of(f: Seq<char>) -> Seq<char> {
    if exists|j: int| is_second_colon(f, j) {
        f.take(choose|j: int| is_second_colon(f, j))
    } else {
        f
    }
}

proof fn lemma_colons_grow(f: Seq<char>, a: int, b: int)
    requires
        0 <= a <= b <= f.len(),
    ensures
        colons(f.take(a)) <= colons(f.take(b)),
    decreases b - a,
{
    if a < b {
        lemma_colons_grow(f, a, b - 1);
        assert(f.take(b).drop_last() =~= f.take(b - 1));
    }
}

proof fn lemma_second_colon_unique(f: Seq<char>, i: int, j: int)
    requires
        is_second_colon(f, i),
        is_second_colon(f, j),
    ensures
        i == j,
{
    if i < j {
        assert(f.take(i + 1).drop_last() =~= f.take(i));
        lemma_colons_grow(f, i + 1, j);
    } else if j < i {
        assert(f.take(j + 1).drop_last() =~= f.take(j));
        lemma_colons_grow(f, j + 1, i);
    }
}

/// The core id that a board identifier needs: the text before its second
/// colon, or the whole identifier when it has fewer than two colons.
pub fn get_core_from_fqbn(fqbn: &str) -> (r: String)
    ensures
        r@ == core_id_of(fqbn@),
{
    let n = fqbn.unicode_len();
    let mut seen: usize = 0;
    let mut i: usize = 0;
    while i < n
        invariant
            n == fqbn@.len(),
            i <= n,
            seen == colons(fqbn@.take(i as int)),
            seen <= 1,
            forall|k: int| 0 <= k < i ==> !is_second_colon(fqbn@, k),
        decreases n - i,
    {
        let c = fqbn.get_char(i);
        assert(fqbn@.take(i + 1).drop_last() =~= fqbn@.take(i as int));
        if c == ':' {
            if seen == 1 {
                proof {
                    assert(is_second_colon(fqbn@, i as int));
                    let j = choose|j: int| is_second_colon(fqbn@, j);
                    lemma_second_colon_unique(fqbn@, i as int, j);
                }
                return String::from_str(fqbn.substring_char(0, i));
            }
            seen = seen + 1;
        }
        i = i + 1;
    }
    assert(!exists|j: int| is_second_colon(fqbn@, j));
    String::from_str(fqbn)
}

/// The cores that ship with the application.
pub open spec fn bundled_cores() -> Seq<Seq<char>> {
    seq!["arduino:avr"@]
}

/// The cores that ship with the application, in a fresh list.
pub fn get_bundled_cores() -> (r: Vec<String>)
    ensures
        r@.map_values(|s: String| s@) == bundled_cores(),
{
    let r = vec![String::from_str("arduino:avr")];
    assert(r@.map_values(|s: String| s@) =~= bundled_cores());
    r
}

/// Whether a core ships with the application.
pub fn is_bundled_core(core_id: &str) -> (r: bool)
    ensures
        r == bundled_cores().contains(core_id@),
{
    let wanted = String::from_str(core_id);
    let bundled = get_bundled_cores();
    let mut i: usize = 0;
    while i < bundled.len()
        invariant
            i <= bundled.len(),
            wanted@ == core_id@,
            bundled@.map_values(|s: String| s@) == bundled_cores(),
            forall|k: int| 0 <= k < i ==> bundled_cores()[k] != core_id@,
        decreases bundled.len() - i,
    {
        assert(bundled_cores()[i as int] == bundled@[i as int]@);
        if bundled[i] == wanted {
            return true;
        }
        i = i + 1;
    }
    false
}

/// Some record in `cores` has the id `id`.
pub open spec fn lists_core(cores: Seq<CoreInfo>, id: Seq<char>) -> bool {
    exists|k: int| 0 <= k < cores.len() && #[trigger] cores[k].id@ == id
}

/// The availability of the core that a board needs, against the installed
/// cores that the tool listed and the cores bundled with the application.
pub fn check_core_status(board_fqbn: &str, installed_cores: &Vec<CoreInfo>) -> (r: CoreStatus)
    ensures
        r.core_id@ == core_id_of(board_fqbn@),
        r.bundled == bundled_cores().contains(core_id_of(board_fqbn@)),
        r.installed == lists_core(installed_cores@, core_id_of(board_fqbn@)),
{
    let core_id = get_core_from_fqbn(board_fqbn);
    let bundled = is_bundled_core(core_id.as_str());
    let mut installed = false;
    let mut i: usize = 0;
    while i < installed_cores.len()
        invariant
            i <= installed_cores.len(),
            installed == exists|k: int| 0 <= k < i && #[trigger] installed_cores@[k].id@ == core_id@,
        decreases installed_cores.len() - i,
    {
        if installed_cores[i].id == core_id {
            installed = true;
        }
        i = i + 1;
    }
    CoreStatus { core_id, installed, bundled }
}

} // verus!
