//! The flattening engine: a JSON document becomes a sequence of flat rows.
use vstd::prelude::*;

use crate::json::{fields_of, json_of, jsons_of, lemma_fields_of, lemma_jsons_of, Json, JsonValue};
use crate::options::{Options, ParserOptions};
use crate::row::{all_wf, rows_of, FlatRow, RowModel};

verus! {

/// `cur` under the parent key `pre`: `cur` alone below the root, else `pre`, the separator, `cur`.
pub open spec fn join(sep: Seq<char>, pre: Seq<char>, cur: Seq<char>) -> Seq<char> {
    if pre.len() == 0 {
        cur
    } else {
        pre + sep + cur
    }
}

/// Strict mode keeps only the allowed keys.
pub open spec fn allowed(o: Options, k: Seq<char>) -> bool {
    !o.strict || o.keys.contains(k)
}

/// A level past the depth limit, when a limit is set.
pub open spec fn too_deep(o: Options, depth: int) -> bool {
    depth > o.max_depth && o.max_depth > 0
}

/// The depth of the level below; depth is counted only when a limit is set.
pub open spec fn next_depth(o: Options, depth: int) -> int {
    if o.max_depth > 0 {
        depth + 1
    } else {
        depth
    }
}

/// A null is replaced by the default for its key, where one is set.
pub open spec fn or_default(o: Options, k: Seq<char>, v: Json) -> Json {
    if v is Null && o.default_value.contains_key(k) {
        o.default_value[k]
    } else {
        v
    }
}

/// The default for `k` where one is set, else `fallback`.
pub open spec fn default_or(o: Options, k: Seq<char>, fallback: Json) -> Json {
    if o.default_value.contains_key(k) {
        o.default_value[k]
    } else {
        fallback
    }
}

/// Every row with `k` set to `v`.
pub open spec fn set_all(rows: Seq<RowModel>, k: Seq<char>, v: Json) -> Seq<RowModel> {
    rows.map_values(|r: RowModel| r.insert(k, v))
}

/// The rows of a branch; a branch that failed contributes none.
pub open spec fn rows_or_none(r: Option<Seq<RowModel>>) -> Seq<RowModel> {
    match r {
        Some(rows) => rows,
        None => Seq::empty(),
    }
}

/// The rows of an array under key `key`, each an extension of `row`.
/// `None` where the array lies past the depth limit.
pub open spec fn expand_array(
    o: Options,
    items: Seq<Json>,
    key: Seq<char>,
    row: RowModel,
    depth: int,
) -> Option<Seq<RowModel>>
    decreases items, 1nat, 0nat,
{
    if too_deep(o, depth) {
        None
    } else if items.len() == 0 {
        Some(seq![row.insert(key, default_or(o, key, Json::Array(Seq::empty())))])
    } else if !allowed(o, key) || o.ignore.contains(key) {
        Some(seq![row])
    } else if o.fold.contains(key) {
        Some(seq![row.insert(key, Json::Array(items))])
    } else {
        Some(expand_elements(o, items, items.len(), key, row, depth))
    }
}

/// The rows that the first `n` elements of an array contribute, in order.
pub open spec fn expand_elements(
    o: Options,
    items: Seq<Json>,
    n: nat,
    key: Seq<char>,
    row: RowModel,
    depth: int,
) -> Seq<RowModel>
    decreases items, 0nat, n,
{
    if n == 0 || n > items.len() {
        Seq::empty()
    } else {
        let prev = expand_elements(o, items, (n - 1) as nat, key, row, depth);
        let e = items[n - 1];
        match e {
            Json::Array(a) => prev + rows_or_none(
                expand_array(o, a, key, row, next_depth(o, depth)),
            ),
            Json::Object(f) => prev + rows_or_none(
                expand_object(o, f, key, row, next_depth(o, depth)),
            ),
            _ => prev.push(row.insert(key, or_default(o, key, e))),
        }
    }
}

/// The rows of an object under key `pre`, each an extension of `seed`.
/// `None` where the object lies past the depth limit.
pub open spec fn expand_object(
    o: Options,
    fields: Seq<(Seq<char>, Json)>,
    pre: Seq<char>,
    seed: RowModel,
    depth: int,
) -> Option<Seq<RowModel>>
    decreases fields, 2nat, 0nat,
{
    if too_deep(o, depth) {
        None
    } else if fields.len() == 0 {
        Some(seq![seed.insert(pre, default_or(o, pre, Json::Object(Seq::empty())))])
    } else {
        let res = expand_fields(o, fields, fields.len(), pre, seed, depth);
        if res.len() == 0 {
            Some(seq![seed])
        } else {
            Some(res)
        }
    }
}

/// The rows after the first `n` fields of an object; empty while no field has
/// touched them.
pub open spec fn expand_fields(
    o: Options,
    fields: Seq<(Seq<char>, Json)>,
    n: nat,
    pre: Seq<char>,
    seed: RowModel,
    depth: int,
) -> Seq<RowModel>
    decreases fields, 1nat, n,
{
    if n == 0 || n > fields.len() {
        Seq::empty()
    } else {
        let res = expand_fields(o, fields, (n - 1) as nat, pre, seed, depth);
        let k = join(o.sep, pre, fields[n - 1].0);
        let v = fields[n - 1].1;
        if !allowed(o, k) || o.ignore.contains(k) {
            res
        } else {
            let base = if res.len() == 0 {
                seq![seed]
            } else {
                res
            };
            if o.fold.contains(k) {
                set_all(base, k, or_default(o, k, v))
            } else if v is Array || v is Object {
                cross(o, v, k, base, base.len(), next_depth(o, depth))
            } else {
                set_all(base, k, or_default(o, k, v))
            }
        }
    }
}

/// The first `n` rows of `base`, each replaced by the rows that the
/// collection `v` under `key` makes of it.
pub open spec fn cross(
    o: Options,
    v: Json,
    key: Seq<char>,
    base: Seq<RowModel>,
    n: nat,
    depth: int,
) -> Seq<RowModel>
    decreases v, 3nat, n,
{
    if n == 0 || n > base.len() {
        Seq::empty()
    } else {
        let prev = cross(o, v, key, base, (n - 1) as nat, depth);
        match v {
            Json::Array(a) => prev + rows_or_none(expand_array(o, a, key, base[n - 1], depth)),
            Json::Object(f) => prev + rows_or_none(expand_object(o, f, key, base[n - 1], depth)),
            _ => prev,
        }
    }
}

/// The rows of a whole document. The root's own key is the empty string.
pub open spec fn flatten(o: Options, v: Json) -> Option<Seq<RowModel>> {
    let key = Seq::<char>::empty();
    if !allowed(o, key) || o.ignore.contains(key) {
        Some(Seq::empty())
    } else if o.fold.contains(key) {
        Some(seq![RowModel::empty().insert(key, v)])
    } else {
        match v {
            Json::Array(a) => expand_array(o, a, key, RowModel::empty(), 0),
            Json::Object(f) => expand_object(o, f, key, RowModel::empty(), 0),
            _ => Some(seq![RowModel::empty().insert(key, v)]),
        }
    }
}

} // verus!

verus! {

/// The largest depth that the engine hands down: one past the largest limit.
pub const DEPTH_BOUND: i64 = 0x8000_0000;

/// Why flattening a document failed.
#[derive(Debug, PartialEq, Eq)]
pub enum FlattenError {
    /// The document's root collection lies past the depth limit.
    DepthExceeded,
}

/// The flattening engine for one set of options.
#[derive(Debug)]
pub struct JsonParser(pub ParserOptions);

impl ParserOptions {
    /// The engine for these options.
    pub fn init(self) -> (r: JsonParser)
        ensures
            r.0@ == self@,
    {
        JsonParser(self)
    }
}

fn set_all_rows(rows: &mut Vec<FlatRow>, key: &String, v: &JsonValue)
    requires
        all_wf(old(rows)@),
    ensures
        all_wf(final(rows)@),
        rows_of(final(rows)@) == set_all(rows_of(old(rows)@), key@, v@),
{
    let ghost start = rows@;
    let mut i: usize = 0;
    while i < rows.len()
        invariant
            rows@.len() == start.len(),
            i <= rows@.len(),
            all_wf(rows@),
            all_wf(start),
            forall|j: int| 0 <= j < i ==> (#[trigger] rows@[j])@ == start[j]@.insert(key@, v@),
            forall|j: int| i <= j < rows@.len() ==> #[trigger] rows@[j] == start[j],
        decreases start.len() - i,
    {
        let mut r = rows[i].copy();
        r.insert(key.clone(), v.deep_copy());
        rows.set(i, r);
        i += 1;
    }
    assert(rows_of(rows@) =~= set_all(rows_of(start), key@, v@));
}

proof fn lemma_rows_append(a: Seq<FlatRow>, b: Seq<FlatRow>)
    ensures
        rows_of(a + b) == rows_of(a) + rows_of(b),
        all_wf(a) && all_wf(b) ==> all_wf(a + b),
{
    assert(rows_of(a + b) =~= rows_of(a) + rows_of(b));
    if all_wf(a) && all_wf(b) {
        assert forall|i: int| 0 <= i < (a + b).len() implies (#[trigger] (a + b)[i]).wf() by {
            if i < a.len() {
                assert((a + b)[i] == a[i]);
            } else {
                assert((a + b)[i] == b[i - a.len()]);
            }
        }
    }
}

proof fn lemma_rows_push(a: Seq<FlatRow>, r: FlatRow)
    ensures
        rows_of(a.push(r)) == rows_of(a).push(r@),
        all_wf(a) && r.wf() ==> all_wf(a.push(r)),
{
    assert(rows_of(a.push(r)) =~= rows_of(a).push(r@));
    if all_wf(a) && r.wf() {
        assert forall|i: int| 0 <= i < a.push(r).len() implies (#[trigger] a.push(r)[i]).wf() by {
            if i < a.len() {
                assert(a.push(r)[i] == a[i]);
            }
        }
    }
}

fn single(r: FlatRow) -> (out: Vec<FlatRow>)
    requires
        r.wf(),
    ensures
        rows_of(out@) == seq![r@],
        all_wf(out@),
{
    let mut out: Vec<FlatRow> = Vec::new();
    out.push(r);
    proof {
        lemma_rows_push(Seq::empty(), r);
        assert(out@ =~= Seq::<FlatRow>::empty().push(r));
        assert(seq![r@] =~= Seq::<RowModel>::empty().push(r@));
    }
    out
}

impl JsonParser {
    /// `curr_key` under the parent key `pre_key`.
    pub fn join_key(&self, pre_key: &str, curr_key: &str) -> (r: String)
        ensures
            r@ == join(self.0@.sep, pre_key@, curr_key@),
    {
        if pre_key.is_empty() {
            curr_key.to_owned()
        } else {
            let mut s = pre_key.to_owned();
            s.append(self.0.get_sep());
            s.append(curr_key);
            s
        }
    }

    fn value_for(&self, key: &String, v: &JsonValue) -> (r: JsonValue)
        ensures
            r@ == or_default(self.0@, key@, v@),
    {
        if let JsonValue::Null = v {
            if let Some(d) = self.0.get_default(key.as_str()) {
                return d.deep_copy();
            }
        }
        v.deep_copy()
    }

    fn too_deep(&self, depth: i64) -> (r: bool)
        ensures
            r == too_deep(self.0@, depth as int),
    {
        depth > self.0.get_max_depth() as i64 && self.0.get_max_depth() > 0
    }

    fn next_depth(&self, depth: i64) -> (r: i64)
        requires
            0 <= depth <= DEPTH_BOUND,
            !too_deep(self.0@, depth as int),
        ensures
            r as int == next_depth(self.0@, depth as int),
            0 <= r <= DEPTH_BOUND,
    {
        if self.0.get_max_depth() > 0 {
            depth + 1
        } else {
            depth
        }
    }

    fn parser_array(&self, arr: &Vec<JsonValue>, pre_key: &String, curr: &FlatRow, depth: i64) -> (r:
        Result<Vec<FlatRow>, FlattenError>)
        requires
            curr.wf(),
            0 <= depth <= DEPTH_BOUND,
        ensures
            match expand_array(self.0@, jsons_of(arr@), pre_key@, curr@, depth as int) {
                Some(rows) => r is Ok && rows_of(r->Ok_0@) == rows && all_wf(r->Ok_0@),
                None => r is Err,
            },
        decreases arr,
    {
        let ghost o = self.0@;
        let ghost items = jsons_of(arr@);
        proof {
            lemma_jsons_of(arr@);
        }
        if self.too_deep(depth) {
            return Err(FlattenError::DepthExceeded);
        }
        if arr.len() == 0 {
            let mut row = curr.copy();
            let v = match self.0.get_default(pre_key.as_str()) {
                Some(d) => d.deep_copy(),
                None => JsonValue::Array(Vec::new()),
            };
            proof {
                lemma_jsons_of(Seq::<JsonValue>::empty());
                assert(jsons_of(Seq::<JsonValue>::empty()) =~= Seq::<Json>::empty());
            }
            row.insert(pre_key.clone(), v);
            return Ok(single(row));
        }
        if (self.0.strict_mode() && !self.0.contain_key(pre_key.as_str())) || self.0.contains_ignore(
            pre_key.as_str(),
        ) {
            return Ok(single(curr.copy()));
        }
        if self.0.contains_fold(pre_key.as_str()) {
            let mut row = curr.copy();
            row.insert(pre_key.clone(), JsonValue::Array(crate::json::copy_items(arr)));
            return Ok(single(row));
        }
        let nd = self.next_depth(depth);
        let mut res: Vec<FlatRow> = Vec::new();
        let mut i: usize = 0;
        while i < arr.len()
            invariant
                i <= arr@.len(),
                curr.wf(),
                all_wf(res@),
                items == jsons_of(arr@),
                items.len() == arr@.len(),
                forall|j: int| 0 <= j < arr@.len() ==> #[trigger] items[j] == json_of(arr@[j]),
                nd as int == next_depth(o, depth as int),
                0 <= nd <= DEPTH_BOUND,
                o == self.0@,
                rows_of(res@) == expand_elements(o, items, i as nat, pre_key@, curr@, depth as int),
            decreases arr@.len() - i,
        {
            let ghost before = res@;
            assert(decreases_to!(arr@ => arr@[i as int]));
            match &arr[i] {
                JsonValue::Array(a) => {
                    assert(decreases_to!(arr@[i as int] => arr@[i as int]->Array_0));
                    match self.parser_array(a, pre_key, curr, nd) {
                        Ok(mut r) => {
                            proof {
                                lemma_rows_append(res@, r@);
                            }
                            res.append(&mut r);
                        },
                        Err(_) => {},
                    }
                },
                JsonValue::Object(f) => {
                    assert(decreases_to!(arr@[i as int] => arr@[i as int]->Object_0));
                    match self.parser_object(f, pre_key, curr, nd) {
                        Ok(mut r) => {
                            proof {
                                lemma_rows_append(res@, r@);
                            }
                            res.append(&mut r);
                        },
                        Err(_) => {},
                    }
                },
                v => {
                    let mut row = curr.copy();
                    row.insert(pre_key.clone(), self.value_for(pre_key, v));
                    proof {
                        lemma_rows_push(res@, row);
                    }
                    res.push(row);
                },
            }
            proof {
                assert(rows_or_none(None) =~= Seq::<RowModel>::empty());
                assert(before + Seq::<FlatRow>::empty() =~= before);
                assert(rows_of(before) + Seq::<RowModel>::empty() =~= rows_of(before));
            }
            i += 1;
        }
        Ok(res)
    }

    fn parser_object(
        &self,
        obj: &Vec<(String, JsonValue)>,
        pre_key: &String,
        curr: &FlatRow,
        depth: i64,
    ) -> (r: Result<Vec<FlatRow>, FlattenError>)
        requires
            curr.wf(),
            0 <= depth <= DEPTH_BOUND,
        ensures
            match expand_object(self.0@, fields_of(obj@), pre_key@, curr@, depth as int) {
                Some(rows) => r is Ok && rows_of(r->Ok_0@) == rows && all_wf(r->Ok_0@),
                None => r is Err,
            },
        decreases obj,
    {
        let ghost o = self.0@;
        let ghost fields = fields_of(obj@);
        proof {
            lemma_fields_of(obj@);
        }
        if self.too_deep(depth) {
            return Err(FlattenError::DepthExceeded);
        }
        if obj.len() == 0 {
            let mut row = curr.copy();
            let v = match self.0.get_default(pre_key.as_str()) {
                Some(d) => d.deep_copy(),
                None => JsonValue::Object(Vec::new()),
            };
            proof {
                lemma_fields_of(Seq::<(String, JsonValue)>::empty());
                assert(fields_of(Seq::<(String, JsonValue)>::empty()) =~= Seq::<
                    (Seq<char>, Json),
                >::empty());
            }
            row.insert(pre_key.clone(), v);
            return Ok(single(row));
        }
        let nd = self.next_depth(depth);
        let mut res: Vec<FlatRow> = Vec::new();
        let mut i: usize = 0;
        while i < obj.len()
            invariant
                i <= obj@.len(),
                curr.wf(),
                all_wf(res@),
                fields == fields_of(obj@),
                fields.len() == obj@.len(),
                forall|j: int|
                    0 <= j < obj@.len() ==> #[trigger] fields[j] == (obj@[j].0@, json_of(obj@[j].1)),
                nd as int == next_depth(o, depth as int),
                0 <= nd <= DEPTH_BOUND,
                o == self.0@,
                rows_of(res@) == expand_fields(o, fields, i as nat, pre_key@, curr@, depth as int),
            decreases obj@.len() - i,
        {
            let key = &obj[i].0;
            let val = &obj[i].1;
            let full_key = self.join_key(pre_key.as_str(), key.as_str());
            if (self.0.strict_mode() && !self.0.contain_key(full_key.as_str()))
                || self.0.contains_ignore(full_key.as_str()) {
            } else {
                if res.len() == 0 {
                    res = single(curr.copy());
                }
                if self.0.contains_fold(full_key.as_str()) {
                    let v = self.value_for(&full_key, val);
                    set_all_rows(&mut res, &full_key, &v);
                } else {
                    match val {
                        JsonValue::Array(_) | JsonValue::Object(_) => {
                            assert(decreases_to!(obj@ => obj@[i as int]));
                            res = self.cross_rows(val, &full_key, &res, nd);
                        },
                        _ => {
                            let v = self.value_for(&full_key, val);
                            set_all_rows(&mut res, &full_key, &v);
                        },
                    }
                }
            }
            i += 1;
        }
        if res.len() == 0 {
            res = single(curr.copy());
        }
        Ok(res)
    }

    fn cross_rows(&self, v: &JsonValue, key: &String, base: &Vec<FlatRow>, depth: i64) -> (r: Vec<
        FlatRow,
    >)
        requires
            v is Array || v is Object,
            all_wf(base@),
            0 <= depth <= DEPTH_BOUND,
        ensures
            all_wf(r@),
            rows_of(r@) == cross(self.0@, v@, key@, rows_of(base@), base@.len(), depth as int),
        decreases v,
    {
        let ghost o = self.0@;
        let mut res: Vec<FlatRow> = Vec::new();
        let mut j: usize = 0;
        while j < base.len()
            invariant
                j <= base@.len(),
                all_wf(base@),
                all_wf(res@),
                v is Array || v is Object,
                o == self.0@,
                0 <= depth <= DEPTH_BOUND,
                rows_of(res@) == cross(o, v@, key@, rows_of(base@), j as nat, depth as int),
            decreases base@.len() - j,
        {
            assert(base@[j as int].wf());
            let out = match v {
                JsonValue::Array(a) => {
                    assert(decreases_to!(*v => (*v)->Array_0));
                    self.parser_array(a, key, &base[j], depth)
                },
                JsonValue::Object(f) => {
                    assert(decreases_to!(*v => (*v)->Object_0));
                    self.parser_object(f, key, &base[j], depth)
                },
                _ => Ok(Vec::new()),
            };
            match out {
                Ok(mut r) => {
                    proof {
                        lemma_rows_append(res@, r@);
                    }
                    res.append(&mut r);
                },
                Err(_) => {
                    proof {
                        assert(rows_of(res@) + Seq::<RowModel>::empty() =~= rows_of(res@));
                    }
                },
            }
            j += 1;
        }
        res
    }

    /// Flattens a whole document into rows.
    pub fn run(&self, v: &JsonValue) -> (r: Result<Vec<FlatRow>, FlattenError>)
        ensures
            r is Ok,
            match flatten(self.0@, v@) {
                Some(rows) => r is Ok && rows_of(r->Ok_0@) == rows && all_wf(r->Ok_0@),
                None => r is Err,
            },
    {
        let key = String::new();
        if (self.0.strict_mode() && !self.0.contain_key(key.as_str())) || self.0.contains_ignore(
            key.as_str(),
        ) {
            let out: Vec<FlatRow> = Vec::new();
            assert(rows_of(out@) =~= Seq::<RowModel>::empty());
            return Ok(out);
        }
        if self.0.contains_fold(key.as_str()) {
            let mut row = FlatRow::new();
            row.insert(key, v.deep_copy());
            return Ok(single(row));
        }
        let root = FlatRow::new();
        match v {
            JsonValue::Array(a) => self.parser_array(a, &key, &root, 0),
            JsonValue::Object(f) => self.parser_object(f, &key, &root, 0),
            _ => {
                let mut row = FlatRow::new();
                row.insert(key, v.deep_copy());
                Ok(single(row))
            },
        }
    }
}

} // verus!

verus! {

/// A scalar document (null, boolean, number or string) flattens to exactly one
/// row, which maps the empty key to the scalar itself, whenever the options
/// neither ignore the root key nor, in strict mode, leave it out.
pub proof fn lemma_scalar_document(o: Options, v: Json)
    requires
        !(v is Array),
        !(v is Object),
        allowed(o, Seq::empty()),
        !o.ignore.contains(Seq::empty()),
    ensures
        flatten(o, v) == Some(seq![RowModel::empty().insert(Seq::<char>::empty(), v)]),
{
}

/// A document never fails as a whole: the root collection is at depth zero,
/// which no limit exceeds.
pub proof fn lemma_root_never_too_deep(o: Options, v: Json)
    ensures
        flatten(o, v) is Some,
{
}

} // verus!
