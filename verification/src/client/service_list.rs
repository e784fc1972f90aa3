//! The menu of services, grouped in categories, and the selection that
//! moves over it.
use crate::client::text::push_str;
use vstd::prelude::*;

verus! {

/// The operations a service list entry can trigger.
#[derive(Debug, Clone, Copy, PartialEq, Eq, Hash, Structural)]
pub enum ServiceAction {
    Register,
    VerifyRegistration,
    ResendVerification,
    Login,
    CreateUser,
    DeleteUser,
    PlayStream,
    QueryBusinessListings,
    AcquireListedBusiness,
}

/// The text shown for each action.
pub open spec fn action_label(a: ServiceAction) -> Seq<char> {
    match a {
        ServiceAction::Register => "Register User"@,
        ServiceAction::VerifyRegistration => "Verify User Registration"@,
        ServiceAction::ResendVerification => "Resend Verification Code"@,
        ServiceAction::Login => "Login User"@,
        ServiceAction::CreateUser => "Create User"@,
        ServiceAction::DeleteUser => "Delete User"@,
        ServiceAction::PlayStream => "Setup the game stream"@,
        ServiceAction::QueryBusinessListings => "Query business listings"@,
        ServiceAction::AcquireListedBusiness => "Acquire listed business"@,
    }
}

impl ServiceAction {
    /// The text shown for this action.
    pub fn label(&self) -> (s: &'static str)
        ensures
            s@ == action_label(*self),
    {
        match self {
            ServiceAction::Register => "Register User",
            ServiceAction::VerifyRegistration => "Verify User Registration",
            ServiceAction::ResendVerification => "Resend Verification Code",
            ServiceAction::Login => "Login User",
            ServiceAction::CreateUser => "Create User",
            ServiceAction::DeleteUser => "Delete User",
            ServiceAction::PlayStream => "Setup the game stream",
            ServiceAction::QueryBusinessListings => "Query business listings",
            ServiceAction::AcquireListedBusiness => "Acquire listed business",
        }
    }
}

/// A single entry of the service list.
#[derive(Debug)]
pub struct ServiceItem {
    /// The text displayed in the list for this service.
    pub display_name: String,
    /// The action associated with this service.
    pub action: ServiceAction,
}

impl ServiceItem {
    /// An entry showing the action's own label.
    pub fn new(action: ServiceAction) -> (r: Self)
        ensures
            r.display_name@ == action_label(action),
            r.action == action,
    {
        ServiceItem { display_name: action.label().to_owned(), action }
    }

    /// An entry showing `name`.
    pub fn new_with_name(name: String, action: ServiceAction) -> (r: Self)
        ensures
            r.display_name@ == name@,
            r.action == action,
    {
        ServiceItem { display_name: name, action }
    }
}

/// A named group of service entries.
#[derive(Debug)]
pub struct ServiceCategory {
    pub name: String,
    pub items: Vec<ServiceItem>,
}

/// A row of the list as displayed: a category header or a service entry.
#[derive(Debug, Clone, Copy, PartialEq, Eq, Structural)]
pub enum FlatListItemType {
    CategoryHeader,
    Service(ServiceAction),
}

/// The rows of one category: its header, then one row per entry.
pub open spec fn category_rows(c: ServiceCategory) -> Seq<FlatListItemType> {
    seq![FlatListItemType::CategoryHeader] + c.items@.map_values(
        |it: ServiceItem| FlatListItemType::Service(it.action),
    )
}

/// The rows of all categories, in order.
pub open spec fn flatten_categories(cs: Seq<ServiceCategory>) -> Seq<FlatListItemType>
    decreases cs.len(),
{
    if cs.len() == 0 {
        Seq::empty()
    } else {
        flatten_categories(cs.drop_last()) + category_rows(cs.last())
    }
}

/// How far the entries are indented under their category's header.
pub const INDENTATION: &'static str = "  ";

/// The texts of one category's rows: its name, then each entry's name
/// indented.
pub open spec fn category_labels(c: ServiceCategory) -> Seq<Seq<char>> {
    seq![c.name@] + c.items@.map_values(|it: ServiceItem| INDENTATION@ + it.display_name@)
}

/// The texts of all rows, in order.
pub open spec fn flatten_labels(cs: Seq<ServiceCategory>) -> Seq<Seq<char>>
    decreases cs.len(),
{
    if cs.len() == 0 {
        Seq::empty()
    } else {
        flatten_labels(cs.drop_last()) + category_labels(cs.last())
    }
}

/// The list wraps around: a position past the end goes to the first row,
/// one before the start to the last row.
pub open spec fn wrap_index(c: int, len: int) -> int {
    if c >= len {
        0
    } else if c < 0 {
        len - 1
    } else {
        c
    }
}

/// The direction of the search: forward unless `delta` is negative.
pub open spec fn search_step(delta: i32) -> int {
    if delta < 0 {
        -1
    } else {
        1
    }
}

/// Where the search starts: `delta` rows away from the current selection,
/// or at one end of the list when nothing is selected.
pub open spec fn search_start(selected: Option<usize>, delta: i32, len: int) -> int {
    match selected {
        Some(i) => (i as i32) + delta,
        None => if delta < 0 {
            len - 1
        } else {
            0
        },
    }
}

/// The row examined at the `k`-th step of the search.
pub open spec fn search_candidate(start: int, step: int, len: int, k: nat) -> int
    decreases k,
{
    if k == 0 {
        wrap_index(start, len)
    } else {
        wrap_index(search_candidate(start, step, len, (k - 1) as nat) + step, len)
    }
}

/// Whether a row is a service entry.
pub open spec fn is_service_row(r: FlatListItemType) -> bool {
    r is Service
}

/// The first step `j` in `k..rows.len()` whose candidate row is a service
/// entry.
pub open spec fn first_service_step(rows: Seq<FlatListItemType>, start: int, step: int, k: nat) -> Option<nat>
    decreases rows.len() - k,
{
    if k >= rows.len() {
        None
    } else if is_service_row(rows[search_candidate(start, step, rows.len() as int, k)]) {
        Some(k)
    } else {
        first_service_step(rows, start, step, k + 1)
    }
}

/// The selection after moving by `delta` over `rows`: the first service row
/// met when walking from the start position in the direction of `delta`,
/// wrapping around, for at most one lap; none when there is no such row.
pub open spec fn adjusted_selection(rows: Seq<FlatListItemType>, selected: Option<usize>, delta: i32) -> Option<usize> {
    let len = rows.len() as int;
    let start = search_start(selected, delta, len);
    let step = search_step(delta);
    if len == 0 {
        None
    } else {
        match first_service_step(rows, start, step, 0) {
            Some(k) => Some(search_candidate(start, step, len, k) as usize),
            None => None,
        }
    }
}

proof fn lemma_candidate_closed_form(start: int, step: int, len: int, k: nat)
    requires
        len > 0,
        step == 1 || step == -1,
        k < len,
    ensures
        ({
            let c0 = wrap_index(start, len);
            let c = search_candidate(start, step, len, k);
            &&& step == 1 ==> c == if c0 + k < len { c0 + k } else { c0 + k - len }
            &&& step == -1 ==> c == if c0 - k >= 0 { c0 - k } else { c0 - k + len }
        }),
    decreases k,
{
    if k > 0 {
        lemma_candidate_closed_form(start, step, len, (k - 1) as nat);
    }
}

proof fn lemma_candidate_covers(start: int, step: int, len: int, t: int) -> (k: nat)
    requires
        len > 0,
        step == 1 || step == -1,
        0 <= t < len,
    ensures
        k < len,
        search_candidate(start, step, len, k) == t,
{
    let c0 = wrap_index(start, len);
    let k: nat = if step == 1 {
        if t >= c0 { (t - c0) as nat } else { (len - c0 + t) as nat }
    } else {
        if c0 >= t { (c0 - t) as nat } else { (c0 - t + len) as nat }
    };
    lemma_candidate_closed_form(start, step, len, k);
    k
}

proof fn lemma_first_service_step_sound(rows: Seq<FlatListItemType>, start: int, step: int, k: nat)
    ensures
        first_service_step(rows, start, step, k) matches Some(j) ==> k <= j < rows.len()
            && is_service_row(rows[search_candidate(start, step, rows.len() as int, j)]),
    decreases rows.len() - k,
{
    if k < rows.len() && !is_service_row(rows[search_candidate(start, step, rows.len() as int, k)]) {
        lemma_first_service_step_sound(rows, start, step, k + 1);
    }
}

proof fn lemma_first_service_step_complete(rows: Seq<FlatListItemType>, start: int, step: int, k: nat, j: nat)
    requires
        k <= j < rows.len(),
        is_service_row(rows[search_candidate(start, step, rows.len() as int, j)]),
    ensures
        first_service_step(rows, start, step, k) is Some,
    decreases j - k,
{
    if k < j && !is_service_row(rows[search_candidate(start, step, rows.len() as int, k)]) {
        lemma_first_service_step_complete(rows, start, step, k + 1, j);
    }
}

proof fn lemma_first_service_step_at(rows: Seq<FlatListItemType>, start: int, step: int, k: nat, kj: nat)
    requires
        k <= kj < rows.len(),
        is_service_row(rows[search_candidate(start, step, rows.len() as int, kj)]),
        forall|m: nat| k <= m < kj ==> !is_service_row(#[trigger] rows[search_candidate(start, step, rows.len() as int, m)]),
    ensures
        first_service_step(rows, start, step, k) == Some(kj),
    decreases kj - k,
{
    if k < kj {
        lemma_first_service_step_at(rows, start, step, k + 1, kj);
    }
}

/// Moving the selection goes to the nearest service entry in the direction
/// of the move, skipping the category headers in between: one row down
/// from row `i` lands on the first service entry after `i`, one row up on
/// the last service entry before it; with nothing selected, moving down
/// selects the first service entry of the list and moving up the last one.
pub proof fn lemma_moves_reach_nearest_service(rows: Seq<FlatListItemType>, i: usize, j: int)
    requires
        rows.len() <= i32::MAX,
        0 <= j < rows.len(),
        is_service_row(rows[j]),
    ensures
        (i < j && forall|t: int| i < t < j ==> !is_service_row(#[trigger] rows[t])) ==> adjusted_selection(
            rows,
            Some(i),
            1,
        ) == Some(j as usize),
        (j < i < rows.len() && forall|t: int| j < t < i ==> !is_service_row(#[trigger] rows[t])) ==> adjusted_selection(
            rows,
            Some(i),
            -1i32,
        ) == Some(j as usize),
        (forall|t: int| 0 <= t < j ==> !is_service_row(#[trigger] rows[t])) ==> adjusted_selection(rows, None, 1)
            == Some(j as usize),
        (forall|t: int| j < t < rows.len() ==> !is_service_row(#[trigger] rows[t])) ==> adjusted_selection(
            rows,
            None,
            -1i32,
        ) == Some(j as usize),
{
    let len = rows.len() as int;
    if i < j && forall|t: int| i < t < j ==> !is_service_row(#[trigger] rows[t]) {
        let start = search_start(Some(i), 1i32, len);
        assert((i as i32) as int == i as int);
        assert(start == i + 1);
        let kj = (j - i - 1) as nat;
        lemma_candidate_closed_form(start, 1, len, kj);
        assert forall|m: nat| 0 <= m < kj implies !is_service_row(#[trigger] rows[search_candidate(start, 1, len, m)]) by {
            lemma_candidate_closed_form(start, 1, len, m);
            assert(search_candidate(start, 1, len, m) == i + 1 + m);
        }
        lemma_first_service_step_at(rows, start, 1, 0, kj);
    }
    if j < i < rows.len() && forall|t: int| j < t < i ==> !is_service_row(#[trigger] rows[t]) {
        let start = search_start(Some(i), -1i32, len);
        assert((i as i32) as int == i as int);
        assert(start == i - 1);
        let kj = (i - 1 - j) as nat;
        lemma_candidate_closed_form(start, -1, len, kj);
        assert forall|m: nat| 0 <= m < kj implies !is_service_row(#[trigger] rows[search_candidate(start, -1, len, m)]) by {
            lemma_candidate_closed_form(start, -1, len, m);
            assert(search_candidate(start, -1, len, m) == i - 1 - m);
        }
        lemma_first_service_step_at(rows, start, -1, 0, kj);
    }
    if forall|t: int| 0 <= t < j ==> !is_service_row(#[trigger] rows[t]) {
        let start = search_start(None, 1i32, len);
        let kj = j as nat;
        lemma_candidate_closed_form(start, 1, len, kj);
        assert forall|m: nat| 0 <= m < kj implies !is_service_row(#[trigger] rows[search_candidate(start, 1, len, m)]) by {
            lemma_candidate_closed_form(start, 1, len, m);
        }
        lemma_first_service_step_at(rows, start, 1, 0, kj);
    }
    if forall|t: int| j < t < rows.len() ==> !is_service_row(#[trigger] rows[t]) {
        let start = search_start(None, -1i32, len);
        let kj = (len - 1 - j) as nat;
        lemma_candidate_closed_form(start, -1, len, kj);
        assert forall|m: nat| 0 <= m < kj implies !is_service_row(#[trigger] rows[search_candidate(start, -1, len, m)]) by {
            lemma_candidate_closed_form(start, -1, len, m);
        }
        lemma_first_service_step_at(rows, start, -1, 0, kj);
    }
}

/// Moving the selection always lands on a service entry, never on a
/// category header; it finds none only when the list has no service entry
/// at all, whatever the start position and direction.
pub proof fn lemma_adjusted_selection_lands_on_service(
    rows: Seq<FlatListItemType>,
    selected: Option<usize>,
    delta: i32,
)
    requires
        rows.len() <= usize::MAX,
    ensures
        adjusted_selection(rows, selected, delta) matches Some(j) ==> (j as int) < rows.len()
            && is_service_row(rows[j as int]),
        adjusted_selection(rows, selected, delta) is None <==> forall|t: int|
            0 <= t < rows.len() ==> !is_service_row(#[trigger] rows[t]),
{
    let len = rows.len() as int;
    let start = search_start(selected, delta, len);
    let step = search_step(delta);
    if len > 0 {
        lemma_first_service_step_sound(rows, start, step, 0);
        match first_service_step(rows, start, step, 0) {
            Some(k) => {
                lemma_candidate_in_range(start, step, len, k);
            },
            None => {
                assert forall|t: int| 0 <= t < rows.len() implies !is_service_row(#[trigger] rows[t]) by {
                    let k = lemma_candidate_covers(start, step, len, t);
                    if is_service_row(rows[t]) {
                        lemma_first_service_step_complete(rows, start, step, 0, k);
                    }
                }
            },
        }
    }
}

/// Moving by zero rows keeps a selection that is already on a service
/// entry.
pub proof fn lemma_zero_move_keeps_service_selection(rows: Seq<FlatListItemType>, i: usize)
    requires
        (i as int) < rows.len() <= i32::MAX,
        is_service_row(rows[i as int]),
    ensures
        adjusted_selection(rows, Some(i), 0) == Some(i),
{
    assert((i as i32) as int == i as int);
}

/// The service list: the categories, and their rows as displayed.
#[derive(Debug)]
pub struct ServiceListWidget {
    categories: Vec<ServiceCategory>,
    flat_items_map: Vec<FlatListItemType>,
}

proof fn lemma_candidate_in_range(start: int, step: int, len: int, k: nat)
    requires
        len > 0,
        step == 1 || step == -1,
    ensures
        0 <= search_candidate(start, step, len, k) < len,
    decreases k,
{
    if k > 0 {
        lemma_candidate_in_range(start, step, len, (k - 1) as nat);
    }
}

proof fn lemma_first_service_step_skip(rows: Seq<FlatListItemType>, start: int, step: int, k: nat)
    requires
        k < rows.len(),
        !is_service_row(rows[search_candidate(start, step, rows.len() as int, k)]),
    ensures
        first_service_step(rows, start, step, k) == first_service_step(rows, start, step, k + 1),
{
}

impl ServiceListWidget {
    #[verifier::type_invariant]
    spec fn rows_match_categories(self) -> bool {
        self.flat_items_map@ == flatten_categories(self.categories@)
    }

    /// The categories shown.
    pub closed spec fn spec_categories(&self) -> Seq<ServiceCategory> {
        self.categories@
    }

    /// The rows as displayed: each category header followed by its entries.
    pub open spec fn rows(&self) -> Seq<FlatListItemType> {
        flatten_categories(self.spec_categories())
    }

    /// A list showing `categories`.
    pub fn new(categories: Vec<ServiceCategory>) -> (r: Self)
        ensures
            r.spec_categories() == categories@,
    {
        let flat_items_map = Self::build_flat_items_map(&categories);
        ServiceListWidget { categories, flat_items_map }
    }

    fn build_flat_items_map(categories: &Vec<ServiceCategory>) -> (map: Vec<FlatListItemType>)
        ensures
            map@ == flatten_categories(categories@),
    {
        let mut map: Vec<FlatListItemType> = Vec::new();
        let mut c: usize = 0;
        while c < categories.len()
            invariant
                0 <= c <= categories.len(),
                map@ == flatten_categories(categories@.take(c as int)),
            decreases categories.len() - c,
        {
            let category = &categories[c];
            let ghost before = map@;
            map.push(FlatListItemType::CategoryHeader);
            let mut i: usize = 0;
            while i < category.items.len()
                invariant
                    0 <= i <= category.items.len(),
                    map@ == before + seq![FlatListItemType::CategoryHeader]
                        + category.items@.take(i as int).map_values(
                        |it: ServiceItem| FlatListItemType::Service(it.action),
                    ),
                decreases category.items.len() - i,
            {
                map.push(FlatListItemType::Service(category.items[i].action));
                proof {
                    assert(category.items@.take(i + 1).map_values(
                        |it: ServiceItem| FlatListItemType::Service(it.action),
                    ) =~= category.items@.take(i as int).map_values(
                        |it: ServiceItem| FlatListItemType::Service(it.action),
                    ).push(FlatListItemType::Service(category.items@[i as int].action)));
                }
                i = i + 1;
            }
            proof {
                assert(category.items@.take(i as int) =~= category.items@);
                assert(categories@.take(c + 1).drop_last() =~= categories@.take(c as int));
                assert(map@ =~= flatten_categories(categories@.take(c + 1)));
            }
            c = c + 1;
        }
        proof {
            assert(categories@.take(c as int) =~= categories@);
        }
        map
    }

    /// The text of each row as displayed: a category's name for its header,
    /// an entry's name indented under it.
    pub fn row_labels(&self) -> (labels: Vec<String>)
        ensures
            labels@.map_values(|l: String| l@) == flatten_labels(self.spec_categories()),
    {
        let categories = &self.categories;
        let mut labels: Vec<String> = Vec::new();
        let mut c: usize = 0;
        while c < categories.len()
            invariant
                0 <= c <= categories.len(),
                labels@.map_values(|l: String| l@) == flatten_labels(categories@.take(c as int)),
            decreases categories.len() - c,
        {
            let category = &categories[c];
            let ghost before = labels@.map_values(|l: String| l@);
            labels.push(category.name.clone());
            proof {
                assert(labels@.map_values(|l: String| l@) =~= before + seq![category.name@]);
            }
            let mut i: usize = 0;
            while i < category.items.len()
                invariant
                    0 <= i <= category.items.len(),
                    labels@.map_values(|l: String| l@) == before + seq![category.name@]
                        + category.items@.take(i as int).map_values(
                        |it: ServiceItem| INDENTATION@ + it.display_name@,
                    ),
                decreases category.items.len() - i,
            {
                let ghost prev = labels@;
                let mut label = INDENTATION.to_owned();
                push_str(&mut label, category.items[i].display_name.as_str());
                labels.push(label);
                proof {
                    assert(labels@.map_values(|l: String| l@) =~= prev.map_values(|l: String| l@).push(
                        INDENTATION@ + category.items@[i as int].display_name@,
                    ));
                    assert(category.items@.take(i + 1).map_values(
                        |it: ServiceItem| INDENTATION@ + it.display_name@,
                    ) =~= category.items@.take(i as int).map_values(
                        |it: ServiceItem| INDENTATION@ + it.display_name@,
                    ).push(INDENTATION@ + category.items@[i as int].display_name@));
                }
                i = i + 1;
            }
            proof {
                assert(category.items@.take(i as int) =~= category.items@);
                assert(categories@.take(c + 1).drop_last() =~= categories@.take(c as int));
                assert(labels@.map_values(|l: String| l@) =~= flatten_labels(categories@.take(c + 1)));
            }
            c = c + 1;
        }
        proof {
            assert(categories@.take(c as int) =~= categories@);
        }
        labels
    }

    /// The number of rows: headers and entries.
    pub fn total_items(&self) -> (n: usize)
        ensures
            n == self.rows().len(),
    {
        proof {
            use_type_invariant(self);
        }
        self.flat_items_map.len()
    }

    /// The action of the selected row, when the selection is on a service
    /// entry (none for a header, an index past the end, or no selection).
    pub fn get_selected_action(&self, selected: Option<usize>) -> (r: Option<ServiceAction>)
        ensures
            r == match selected {
                Some(i) => if (i as int) < self.rows().len() {
                    match self.rows()[i as int] {
                        FlatListItemType::Service(a) => Some(a),
                        FlatListItemType::CategoryHeader => None,
                    }
                } else {
                    None
                },
                None => None,
            },
    {
        proof {
            use_type_invariant(self);
        }
        match selected {
            Some(i) => {
                if i < self.flat_items_map.len() {
                    match self.flat_items_map[i] {
                        FlatListItemType::Service(a) => Some(a),
                        FlatListItemType::CategoryHeader => None,
                    }
                } else {
                    None
                }
            },
            None => None,
        }
    }

    /// The selection after moving by `delta` rows (1 for next, -1 for
    /// previous), skipping category headers and wrapping around the ends.
    /// The result is the new selection of the list: none when the list has
    /// no service entry.
    pub fn adjust_selection(&self, selected: Option<usize>, delta: i32) -> (r: Option<usize>)
        requires
            self.rows().len() <= i32::MAX,
            selected matches Some(i) ==> i32::MIN <= (i as i32) + delta <= i32::MAX,
        ensures
            r == adjusted_selection(self.rows(), selected, delta),
    {
        proof {
            use_type_invariant(self);
        }
        let ghost rows = self.rows();
        let len = self.flat_items_map.len();
        if len == 0 {
            return None;
        }
        let len_i32 = len as i32;
        let mut candidate: i32 = match selected {
            Some(current_idx) => current_idx as i32 + delta,
            None => {
                if delta < 0 {
                    len_i32 - 1
                } else {
                    0
                }
            },
        };
        let step: i32 = if delta < 0 {
            -1
        } else {
            1
        };
        let ghost start = search_start(selected, delta, len as int);
        let mut iteration: usize = 0;
        while iteration < len
            invariant
                rows == self.rows(),
                self.flat_items_map@ == rows,
                len == rows.len(),
                0 < len <= i32::MAX,
                len_i32 == len,
                step == search_step(delta),
                start == search_start(selected, delta, len as int),
                0 <= iteration <= len,
                iteration == 0 ==> candidate == start,
                iteration > 0 ==> candidate == search_candidate(start, step as int, len as int, (iteration - 1) as nat) + step,
                iteration > 0 ==> -1 <= candidate <= len,
                first_service_step(rows, start, step as int, 0) == first_service_step(rows, start, step as int, iteration as nat),
            decreases len - iteration,
        {
            if candidate >= len_i32 {
                candidate = 0;
            } else if candidate < 0 {
                candidate = len_i32 - 1;
            }
            proof {
                assert(candidate == search_candidate(start, step as int, len as int, iteration as nat));
                lemma_candidate_in_range(start, step as int, len as int, iteration as nat);
            }
            let candidate_usize = candidate as usize;
            if let FlatListItemType::Service(_) = self.flat_items_map[candidate_usize] {
                return Some(candidate_usize);
            }
            proof {
                lemma_first_service_step_skip(rows, start, step as int, iteration as nat);
            }
            candidate = candidate + step;
            iteration = iteration + 1;
        }
        None
    }
}

/// The categories of services offered by the client.
pub fn default_services() -> (r: Vec<ServiceCategory>)
    ensures
        r@.len() == 3,
        r@[0].name@ == "🔒 Authorization"@,
        r@[0].items@.map_values(|it: ServiceItem| it.action) == seq![
            ServiceAction::Register,
            ServiceAction::VerifyRegistration,
            ServiceAction::ResendVerification,
            ServiceAction::Login,
        ],
        r@[1].name@ == "⚙️Administration"@,
        r@[1].items@.map_values(|it: ServiceItem| it.action) == seq![
            ServiceAction::CreateUser,
            ServiceAction::DeleteUser,
        ],
        r@[2].name@ == "🕹️ Game"@,
        r@[2].items@.map_values(|it: ServiceItem| it.action) == seq![
            ServiceAction::PlayStream,
            ServiceAction::QueryBusinessListings,
            ServiceAction::AcquireListedBusiness,
        ],
        forall|c: int, i: int|
            0 <= c < 3 && 0 <= i < r@[c].items@.len() ==> (#[trigger] r@[c].items@[i]).display_name@
                == action_label(r@[c].items@[i].action),
{
    let authorization = ServiceCategory {
        name: "🔒 Authorization".to_owned(),
        items: vec![
            ServiceItem::new(ServiceAction::Register),
            ServiceItem::new(ServiceAction::VerifyRegistration),
            ServiceItem::new(ServiceAction::ResendVerification),
            ServiceItem::new(ServiceAction::Login),
        ],
    };
    let administration = ServiceCategory {
        name: "⚙️Administration".to_owned(),
        items: vec![ServiceItem::new(ServiceAction::CreateUser), ServiceItem::new(ServiceAction::DeleteUser)],
    };
    let game = ServiceCategory {
        name: "🕹️ Game".to_owned(),
        items: vec![
            ServiceItem::new(ServiceAction::PlayStream),
            ServiceItem::new(ServiceAction::QueryBusinessListings),
            ServiceItem::new(ServiceAction::AcquireListedBusiness),
        ],
    };
    let r = vec![authorization, administration, game];
    proof {
        assert(r@[0].items@.map_values(|it: ServiceItem| it.action) =~= seq![
            ServiceAction::Register,
            ServiceAction::VerifyRegistration,
            ServiceAction::ResendVerification,
            ServiceAction::Login,
        ]);
        assert(r@[1].items@.map_values(|it: ServiceItem| it.action) =~= seq![
            ServiceAction::CreateUser,
            ServiceAction::DeleteUser,
        ]);
        assert(r@[2].items@.map_values(|it: ServiceItem| it.action) =~= seq![
            ServiceAction::PlayStream,
            ServiceAction::QueryBusinessListings,
            ServiceAction::AcquireListedBusiness,
        ]);
    }
    r
}

} // verus!
