use vstd::prelude::*;

verus! {

/// Whether the cell in row `a` and column `b` shares a row, a column or a
/// three-by-three box with the cell in row `i` and column `j`.
pub open spec fn peers(i: int, j: int, a: int, b: int) -> bool {
    a == i || b == j || (a / 3 == i / 3 && b / 3 == j / 3)
}

/// The digit in row `a` and column `b` of 81 digits in row order.
pub open spec fn digit_at(cells: Seq<u8>, a: int, b: int) -> u8 {
    cells[a * 9 + b]
}

/// The mark of the digit `n + 1` in row `a` and column `b`.
pub open spec fn mark_at(marks: Seq<bool>, a: int, b: int, n: int) -> bool {
    marks[(a * 9 + b) * 9 + n]
}

/// Whether no cell that shares a row, a column or a box with the cell in
/// row `i` and column `j`, that cell included, holds `num`.
pub open spec fn possible_in(cells: Seq<u8>, i: int, j: int, num: u8) -> bool {
    forall|a: int, b: int|
        0 <= a < 9 && 0 <= b < 9 && peers(i, j, a, b) ==> #[trigger] digit_at(cells, a, b) != num
}

/// A nine-by-nine grid of digits, 0 for an empty cell, and for each cell
/// and each digit a mark that says whether the digit is still a candidate
/// there.
pub struct Sudoku {
    grid: Vec<u8>,
    entropy: Vec<bool>,
}

impl Sudoku {
    /// What holds of every grid that this module makes: it has its 81
    /// cells and 729 marks, and no digit is above 9.
    pub open spec fn wf(&self) -> bool {
        &&& self.cells().len() == 81
        &&& self.marks().len() == 729
        &&& forall|k: int| 0 <= k < 81 ==> #[trigger] self.cells()[k] <= 9
    }

    /// The 81 digits, row after row.
    pub closed spec fn cells(&self) -> Seq<u8> {
        self.grid@
    }

    /// The 729 marks: for each cell in row order, one for each digit.
    pub closed spec fn marks(&self) -> Seq<bool> {
        self.entropy@
    }

    /// The digit in row `i` and column `j`; 0 where the cell is empty.
    pub open spec fn cell(&self, i: int, j: int) -> u8 {
        digit_at(self.cells(), i, j)
    }

    /// Whether the digit `n + 1` is marked as a candidate in row `i` and
    /// column `j`.
    pub open spec fn candidate(&self, i: int, j: int, n: int) -> bool {
        mark_at(self.marks(), i, j, n)
    }

    /// Whether no cell that shares a row, a column or a box with the cell
    /// in row `i` and column `j`, that cell included, holds `num`.
    pub open spec fn possible(&self, i: int, j: int, num: u8) -> bool {
        possible_in(self.cells(), i, j, num)
    }

    /// Whether no cell is empty.
    pub open spec fn full(&self) -> bool {
        forall|a: int, b: int| 0 <= a < 9 && 0 <= b < 9 ==> #[trigger] digit_at(self.cells(), a, b) != 0
    }

    /// The number of candidates among the first `n` digits in row `i` and
    /// column `j`.
    pub open spec fn candidates_below(&self, i: int, j: int, n: int) -> int
        decreases n,
    {
        if n <= 0 {
            0
        } else {
            self.candidates_below(i, j, n - 1) + if self.candidate(i, j, n - 1) {
                1int
            } else {
                0int
            }
        }
    }

    /// The number of candidates in row `i` and column `j`.
    pub open spec fn candidates(&self, i: int, j: int) -> int {
        self.candidates_below(i, j, 9)
    }

    /// The digit in row `i` and column `j`; 0 where the cell is empty.
    pub fn get(&self, i: usize, j: usize) -> (digit: u8)
        requires
            self.wf(),
            i < 9,
            j < 9,
        ensures
            digit == self.cell(i as int, j as int),
            digit <= 9,
    {
        self.grid[i * 9 + j]
    }

    /// Whether `num` is marked as a candidate in row `i` and column `j`.
    pub fn is_candidate(&self, i: usize, j: usize, num: u8) -> (yes: bool)
        requires
            self.wf(),
            i < 9,
            j < 9,
            1 <= num <= 9,
        ensures
            yes == self.candidate(i as int, j as int, num - 1),
    {
        self.entropy[(i * 9 + j) * 9 + (num - 1) as usize]
    }

    /// Whether `num` occurs nowhere in the row, the column and the box of
    /// the cell in row `i` and column `j`.
    pub fn ispossible(&self, i: usize, j: usize, num: u8) -> (yes: bool)
        requires
            self.wf(),
            i < 9,
            j < 9,
        ensures
            yes == self.possible(i as int, j as int, num),
    {
        let mut a: usize = 0;
        while a < 9
            invariant
                i < 9,
                j < 9,
                a <= 9,
                self.grid@.len() == 81,
                forall|r: int, c: int|
                    0 <= r < a && 0 <= c < 9 && peers(i as int, j as int, r, c)
                        ==> #[trigger] digit_at(self.cells(), r, c) != num,
            decreases 9 - a,
        {
            let mut b: usize = 0;
            while b < 9
                invariant
                    i < 9,
                    j < 9,
                    a < 9,
                    b <= 9,
                    self.grid@.len() == 81,
                    forall|r: int, c: int|
                        0 <= r < a && 0 <= c < 9 && peers(i as int, j as int, r, c)
                            ==> #[trigger] digit_at(self.cells(), r, c) != num,
                    forall|c: int|
                        0 <= c < b && peers(i as int, j as int, a as int, c) ==> #[trigger] digit_at(
                            self.cells(),
                            a as int,
                            c,
                        ) != num,
                decreases 9 - b,
            {
                if (a == i || b == j || (a / 3 == i / 3 && b / 3 == j / 3)) && self.grid[a * 9 + b]
                    == num {
                    assert(self.cell(a as int, b as int) == num);
                    return false;
                }
                b = b + 1;
            }
            a = a + 1;
        }
        true
    }

    /// The grid with every cell empty and every digit a candidate
    /// everywhere.
    pub fn empty() -> (made: Sudoku)
        ensures
            made.wf(),
            forall|a: int, b: int|
                0 <= a < 9 && 0 <= b < 9 ==> #[trigger] digit_at(made.cells(), a, b) == 0,
            forall|a: int, b: int, n: int|
                0 <= a < 9 && 0 <= b < 9 && 0 <= n < 9 ==> #[trigger] mark_at(made.marks(), a, b, n),
    {
        let mut grid: Vec<u8> = Vec::new();
        let mut entropy: Vec<bool> = Vec::new();
        let mut k: usize = 0;
        while k < 81
            invariant
                k <= 81,
                grid@.len() == k,
                forall|m: int| 0 <= m < k ==> grid@[m] == 0,
            decreases 81 - k,
        {
            grid.push(0);
            k = k + 1;
        }
        let mut k: usize = 0;
        while k < 729
            invariant
                k <= 729,
                entropy@.len() == k,
                forall|m: int| 0 <= m < k ==> entropy@[m],
            decreases 729 - k,
        {
            entropy.push(true);
            k = k + 1;
        }
        Sudoku { grid, entropy }
    }

    /// Whether no cell is empty.
    pub fn isfull(&self) -> (yes: bool)
        requires
            self.wf(),
        ensures
            yes == self.full(),
    {
        let mut k: usize = 0;
        while k < 81
            invariant
                k <= 81,
                self.grid@.len() == 81,
                forall|m: int| 0 <= m < k ==> self.grid@[m] != 0,
            decreases 81 - k,
        {
            if self.grid[k] == 0 {
                assert(self.cell(k as int / 9, k as int % 9) == 0);
                return false;
            }
            k = k + 1;
        }
        true
    }

    /// The number of candidates in row `i` and column `j`.
    pub fn count_candidates(&self, i: usize, j: usize) -> (count: usize)
        requires
            self.wf(),
            i < 9,
            j < 9,
        ensures
            count == self.candidates(i as int, j as int),
            count <= 9,
    {
        let mut count: usize = 0;
        let mut n: usize = 0;
        while n < 9
            invariant
                i < 9,
                j < 9,
                n <= 9,
                count <= n,
                self.entropy@.len() == 729,
                count == self.candidates_below(i as int, j as int, n as int),
            decreases 9 - n,
        {
            if self.entropy[(i * 9 + j) * 9 + n] {
                count = count + 1;
            }
            n = n + 1;
        }
        count
    }
}


impl Sudoku {
    /// The empty cell with the fewest candidates; among several, the first
    /// in row order. None where no cell is empty.
    pub fn min_entropy_cell(&self) -> (found: Option<(usize, usize)>)
        requires
            self.wf(),
        ensures
            match found {
                None => self.full(),
                Some((i, j)) => {
                    &&& i < 9 && j < 9
                    &&& self.cell(i as int, j as int) == 0
                    &&& forall|a: int, b: int|
                        0 <= a < 9 && 0 <= b < 9 && #[trigger] digit_at(self.cells(), a, b) == 0
                            ==> self.candidates(i as int, j as int) <= self.candidates(a, b)
                    &&& forall|a: int, b: int|
                        0 <= a < 9 && 0 <= b < 9 && #[trigger] digit_at(self.cells(), a, b) == 0
                            && a * 9 + b < i * 9 + j ==> self.candidates(i as int, j as int)
                            < self.candidates(a, b)
                },
            },
    {
        let mut res: Option<(usize, usize)> = None;
        let mut vmin: usize = 10;
        let mut i: usize = 0;
        while i < 9
            invariant
                i <= 9,
                self.wf(),
                self.grid@.len() == 81,
                self.entropy@.len() == 729,
                vmin <= 10,
                res is None ==> vmin == 10 && forall|a: int, b: int|
                    0 <= a < i && 0 <= b < 9 ==> #[trigger] digit_at(self.cells(), a, b) != 0,
                res matches Some((r, c)) ==> {
                    &&& r < i && c < 9
                    &&& self.cell(r as int, c as int) == 0
                    &&& vmin == self.candidates(r as int, c as int)
                    &&& forall|a: int, b: int|
                        0 <= a < i && 0 <= b < 9 && #[trigger] digit_at(self.cells(), a, b) == 0
                            ==> vmin <= self.candidates(a, b)
                    &&& forall|a: int, b: int|
                        0 <= a < 9 && 0 <= b < 9 && #[trigger] digit_at(self.cells(), a, b) == 0
                            && a * 9 + b < r * 9 + c ==> vmin < self.candidates(a, b)
                },
            decreases 9 - i,
        {
            let mut j: usize = 0;
            while j < 9
                invariant
                    i < 9,
                    j <= 9,
                    self.wf(),
                    self.grid@.len() == 81,
                    self.entropy@.len() == 729,
                    vmin <= 10,
                    res is None ==> vmin == 10 && forall|a: int, b: int|
                        0 <= a < 9 && 0 <= b < 9 && a * 9 + b < i * 9 + j ==> #[trigger] digit_at(
                            self.cells(),
                            a,
                            b,
                        ) != 0,
                    res matches Some((r, c)) ==> {
                        &&& r < 9 && c < 9 && r * 9 + c < i * 9 + j
                        &&& self.cell(r as int, c as int) == 0
                        &&& vmin == self.candidates(r as int, c as int)
                        &&& forall|a: int, b: int|
                            0 <= a < 9 && 0 <= b < 9 && a * 9 + b < i * 9 + j
                                && #[trigger] digit_at(self.cells(), a, b) == 0 ==> vmin
                                <= self.candidates(a, b)
                        &&& forall|a: int, b: int|
                            0 <= a < 9 && 0 <= b < 9 && #[trigger] digit_at(self.cells(), a, b)
                                == 0 && a * 9 + b < r * 9 + c ==> vmin < self.candidates(a, b)
                    },
                decreases 9 - j,
            {
                if self.grid[i * 9 + j] == 0 {
                    let entro = self.count_candidates(i, j);
                    if entro < vmin {
                        vmin = entro;
                        res = Some((i, j));
                    }
                }
                j = j + 1;
            }
            i = i + 1;
        }
        res
    }

    /// Writes `num` into row `i` and column `j`, and strikes it from the
    /// candidates of every cell of that row, that column and that box.
    pub fn set_entry(&mut self, i: usize, j: usize, num: u8)
        requires
            old(self).wf(),
            i < 9,
            j < 9,
            1 <= num <= 9,
        ensures
            final(self).wf(),
            final(self).cells() == old(self).cells().update(i * 9 + j, num),
            forall|a: int, b: int, n: int|
                0 <= a < 9 && 0 <= b < 9 && 0 <= n < 9 ==> #[trigger] mark_at(
                    final(self).marks(),
                    a,
                    b,
                    n,
                ) == (if n == num - 1 && peers(i as int, j as int, a, b) {
                    false
                } else {
                    mark_at(old(self).marks(), a, b, n)
                }),
    {
        self.grid.set(i * 9 + j, num);
        let n: usize = (num - 1) as usize;
        let mut a: usize = 0;
        while a < 9
            invariant
                i < 9,
                j < 9,
                n == num - 1,
                n < 9,
                a <= 9,
                self.grid@.len() == 81,
                self.entropy@.len() == 729,
                forall|k: int| 0 <= k < 81 ==> self.grid@[k] <= 9,
                old(self).grid@.len() == 81,
                self.grid@ == old(self).grid@.update(i * 9 + j, num),
                forall|r: int, c: int, m: int|
                    0 <= r < 9 && 0 <= c < 9 && 0 <= m < 9 ==> #[trigger] mark_at(
                        self.marks(),
                        r,
                        c,
                        m,
                    ) == (if m == n && r < a && peers(i as int, j as int, r, c) {
                        false
                    } else {
                        mark_at(old(self).marks(), r, c, m)
                    }),
            decreases 9 - a,
        {
            let mut b: usize = 0;
            while b < 9
                invariant
                    i < 9,
                    j < 9,
                    n == num - 1,
                    n < 9,
                    a < 9,
                    b <= 9,
                    self.grid@.len() == 81,
                    self.entropy@.len() == 729,
                    forall|k: int| 0 <= k < 81 ==> self.grid@[k] <= 9,
                    old(self).grid@.len() == 81,
                self.grid@ == old(self).grid@.update(i * 9 + j, num),
                    forall|r: int, c: int, m: int|
                        0 <= r < 9 && 0 <= c < 9 && 0 <= m < 9 ==> #[trigger] mark_at(
                            self.marks(),
                            r,
                            c,
                            m,
                        ) == (if m == n && (r < a || (r == a && c < b)) && peers(
                            i as int,
                            j as int,
                            r,
                            c,
                        ) {
                            false
                        } else {
                            mark_at(old(self).marks(), r, c, m)
                        }),
                decreases 9 - b,
            {
                if a == i || b == j || (a / 3 == i / 3 && b / 3 == j / 3) {
                    let ghost before = self.marks();
                    self.entropy.set((a * 9 + b) * 9 + n, false);
                    assert forall|r: int, c: int, m: int|
                        0 <= r < 9 && 0 <= c < 9 && 0 <= m < 9 implies #[trigger] mark_at(
                        self.marks(),
                        r,
                        c,
                        m,
                    ) == (if m == n && (r < a || (r == a && c < b + 1)) && peers(
                        i as int,
                        j as int,
                        r,
                        c,
                    ) {
                        false
                    } else {
                        mark_at(old(self).marks(), r, c, m)
                    }) by {
                        assert((r * 9 + c) * 9 + m == (a * 9 + b) * 9 + n ==> r == a && c == b && m
                            == n);
                        assert(mark_at(before, r, c, m) == (if m == n && (r < a || (r == a && c
                            < b)) && peers(i as int, j as int, r, c) {
                            false
                        } else {
                            mark_at(old(self).marks(), r, c, m)
                        }));
                    }
                }
                b = b + 1;
            }
            a = a + 1;
        }
    }

    /// Empties the cell in row `i` and column `j` and, for the digit that
    /// stood there, marks anew in every cell of that row, that column and
    /// that box whether the digit is possible there. An empty cell is left
    /// as it is, and so is everything else.
    pub fn remove_entry(&mut self, i: usize, j: usize)
        requires
            old(self).wf(),
            i < 9,
            j < 9,
        ensures
            final(self).wf(),
            final(self).cells() == old(self).cells().update(i * 9 + j, 0),
            old(self).cell(i as int, j as int) == 0 ==> final(self).marks() == old(self).marks(),
            old(self).cell(i as int, j as int) != 0 ==> forall|a: int, b: int, n: int|
                0 <= a < 9 && 0 <= b < 9 && 0 <= n < 9 ==> #[trigger] mark_at(
                    final(self).marks(),
                    a,
                    b,
                    n,
                ) == (if n == old(self).cell(i as int, j as int) - 1 && peers(
                    i as int,
                    j as int,
                    a,
                    b,
                ) {
                    final(self).possible(a, b, old(self).cell(i as int, j as int))
                } else {
                    mark_at(old(self).marks(), a, b, n)
                }),
    {
        let num = self.grid[i * 9 + j];
        if num == 0 {
            assert(self.grid@ =~= old(self).grid@.update(i * 9 + j, 0));
            return ;
        }
        self.grid.set(i * 9 + j, 0);
        let n: usize = (num - 1) as usize;
        let mut a: usize = 0;
        while a < 9
            invariant
                i < 9,
                j < 9,
                1 <= num <= 9,
                n == num - 1,
                a <= 9,
                self.grid@.len() == 81,
                self.entropy@.len() == 729,
                forall|k: int| 0 <= k < 81 ==> self.grid@[k] <= 9,
                old(self).grid@.len() == 81,
                self.grid@ == old(self).grid@.update(i * 9 + j, 0),
                forall|r: int, c: int, m: int|
                    0 <= r < 9 && 0 <= c < 9 && 0 <= m < 9 ==> #[trigger] mark_at(
                        self.marks(),
                        r,
                        c,
                        m,
                    ) == (if m == n && r < a && peers(i as int, j as int, r, c) {
                        possible_in(self.grid@, r, c, num)
                    } else {
                        mark_at(old(self).marks(), r, c, m)
                    }),
            decreases 9 - a,
        {
            let mut b: usize = 0;
            while b < 9
                invariant
                    i < 9,
                    j < 9,
                    1 <= num <= 9,
                    n == num - 1,
                    a < 9,
                    b <= 9,
                    self.grid@.len() == 81,
                    self.entropy@.len() == 729,
                    forall|k: int| 0 <= k < 81 ==> self.grid@[k] <= 9,
                    old(self).grid@.len() == 81,
                self.grid@ == old(self).grid@.update(i * 9 + j, 0),
                    forall|r: int, c: int, m: int|
                        0 <= r < 9 && 0 <= c < 9 && 0 <= m < 9 ==> #[trigger] mark_at(
                            self.marks(),
                            r,
                            c,
                            m,
                        ) == (if m == n && (r < a || (r == a && c < b)) && peers(
                            i as int,
                            j as int,
                            r,
                            c,
                        ) {
                            possible_in(self.grid@, r, c, num)
                        } else {
                            mark_at(old(self).marks(), r, c, m)
                        }),
                decreases 9 - b,
            {
                if a == i || b == j || (a / 3 == i / 3 && b / 3 == j / 3) {
                    let free = self.ispossible(a, b, num);
                    let ghost before = self.marks();
                    self.entropy.set((a * 9 + b) * 9 + n, free);
                    assert forall|r: int, c: int, m: int|
                        0 <= r < 9 && 0 <= c < 9 && 0 <= m < 9 implies #[trigger] mark_at(
                        self.marks(),
                        r,
                        c,
                        m,
                    ) == (if m == n && (r < a || (r == a && c < b + 1)) && peers(
                        i as int,
                        j as int,
                        r,
                        c,
                    ) {
                        possible_in(self.grid@, r, c, num)
                    } else {
                        mark_at(old(self).marks(), r, c, m)
                    }) by {
                        assert((r * 9 + c) * 9 + m == (a * 9 + b) * 9 + n ==> r == a && c == b && m
                            == n);
                        assert(mark_at(before, r, c, m) == (if m == n && (r < a || (r == a && c
                            < b)) && peers(i as int, j as int, r, c) {
                            possible_in(self.grid@, r, c, num)
                        } else {
                            mark_at(old(self).marks(), r, c, m)
                        }));
                    }
                }
                b = b + 1;
            }
            a = a + 1;
        }
    }
}


/// The number of empty cells among the first `k`.
pub open spec fn zeros_below(cells: Seq<u8>, k: int) -> nat
    decreases k,
{
    if k <= 0 {
        0
    } else {
        zeros_below(cells, k - 1) + if cells[k - 1] == 0 {
            1nat
        } else {
            0nat
        }
    }
}

/// Filling an empty cell leaves one empty cell fewer.
pub proof fn lemma_filling_leaves_fewer(cells: Seq<u8>, at: int, num: u8, k: int)
    requires
        0 <= at < cells.len(),
        0 <= k <= cells.len(),
        cells[at] == 0,
        num != 0,
    ensures
        zeros_below(cells.update(at, num), k) == zeros_below(cells, k) - if at < k {
            1int
        } else {
            0int
        },
    decreases k,
{
    if k > 0 {
        lemma_filling_leaves_fewer(cells, at, num, k - 1);
    }
}

/// `rand::seq::SliceRandom::shuffle` with the generator of the thread:
/// the same items in some order.
#[verifier::external_body]
fn shuffle(nums: &mut Vec<u8>)
    ensures
        final(nums)@.to_multiset() == old(nums)@.to_multiset(),
{
    rand::seq::SliceRandom::shuffle(nums.as_mut_slice(), &mut rand::rng())
}

/// The digits that are marked as candidates in row `i` and column `j`, in
/// some order.
fn shuffled_candidates(sudo: &Sudoku, i: usize, j: usize) -> (nums: Vec<u8>)
    requires
        sudo.wf(),
        i < 9,
        j < 9,
    ensures
        forall|k: int| 0 <= k < nums@.len() ==> 1 <= #[trigger] nums@[k] <= 9,
        forall|num: u8|
            nums@.contains(num) <==> 1 <= num <= 9 && sudo.candidate(i as int, j as int, num - 1),
{
    let mut nums: Vec<u8> = Vec::new();
    let mut k: u8 = 0;
    while k < 9
        invariant
            sudo.wf(),
            i < 9,
            j < 9,
            k <= 9,
            forall|num: u8|
                nums@.contains(num) <==> 1 <= num <= k && sudo.candidate(
                    i as int,
                    j as int,
                    num - 1,
                ),
        decreases 9 - k,
    {
        let ghost before = nums@;
        if sudo.is_candidate(i, j, k + 1) {
            nums.push(k + 1);
            assert forall|num: u8|
                nums@.contains(num) <==> 1 <= num <= k + 1 && sudo.candidate(
                    i as int,
                    j as int,
                    num - 1,
                ) by {
                if before.contains(num) {
                    let at = choose|at: int| 0 <= at < before.len() && before[at] == num;
                    assert(nums@[at] == num);
                }
                if num == k + 1 {
                    assert(nums@[before.len() as int] == num);
                }
            }
        }
        k = k + 1;
    }
    let ghost sorted = nums@;
    shuffle(&mut nums);
    proof {
        sorted.to_multiset_ensures();
        nums@.to_multiset_ensures();
        assert forall|num: u8|
            nums@.contains(num) <==> 1 <= num <= 9 && sudo.candidate(
                i as int,
                j as int,
                num - 1,
            ) by {
            assert(nums@.contains(num) <==> nums@.to_multiset().count(num) > 0);
            assert(sorted.contains(num) <==> sorted.to_multiset().count(num) > 0);
            assert(sorted.contains(num) <==> 1 <= num <= 9 && sudo.candidate(
                i as int,
                j as int,
                num - 1,
            ));
        }
        assert forall|m: int| 0 <= m < nums@.len() implies 1 <= #[trigger] nums@[m] <= 9 by {
            assert(nums@.contains(nums@[m]));
        }
    }
    nums
}

/// Looks for ways to fill the grid, trying the candidates of the cell
/// with the fewest of them in a random order, and counts in `n_found` the
/// full grids that it reaches. It stops at the first one where
/// `stop_at_first_solve` is set, and at the second one in any case; the
/// grid is then left as it was filled. Where it goes on, the digits of the
/// grid are left as they were.
pub fn solve_at_most_twice(sudo: &mut Sudoku, n_found: &mut u8, stop_at_first_solve: bool)
    requires
        old(sudo).wf(),
        *old(n_found) < 255,
    ensures
        final(sudo).wf(),
        *old(n_found) <= *final(n_found),
        *final(n_found) <= *old(n_found) + 1 || (*old(n_found) == 0 && *final(n_found) == 2),
        old(sudo).full() ==> *final(n_found) == *old(n_found) + 1
            && final(sudo).cells() == old(sudo).cells(),
        !((*final(n_found) > 0 && stop_at_first_solve) || *final(n_found) > 1)
            ==> final(sudo).cells() == old(sudo).cells(),
    decreases zeros_below(old(sudo).cells(), 81),
{
    let (i, j) = match sudo.min_entropy_cell() {
        Some((row, col)) => (row, col),
        None => {
            *n_found = *n_found + 1;
            return ;
        },
    };
    assert(digit_at(sudo.cells(), i as int, j as int) == 0);
    let nums = shuffled_candidates(sudo, i, j);
    let ghost start = sudo.cells();
    let mut k: usize = 0;
    while k < nums.len()
        invariant
            sudo.wf(),
            i < 9,
            j < 9,
            start == old(sudo).cells(),
            sudo.cells() == start,
            start.len() == 81,
            start[i * 9 + j] == 0,
            forall|m: int| 0 <= m < nums@.len() ==> 1 <= #[trigger] nums@[m] <= 9,
            !old(sudo).full(),
            *old(n_found) < 255,
            *old(n_found) <= *n_found <= *old(n_found) + 1,
            *n_found == *old(n_found) || !((*n_found > 0 && stop_at_first_solve) || *n_found > 1),
        decreases nums.len() - k,
    {
        let num = nums[k];
        sudo.set_entry(i, j, num);
        proof {
            lemma_filling_leaves_fewer(start, i * 9 + j, num, 81);
            assert(sudo.cells() == start.update(i * 9 + j, num));
        }
        solve_at_most_twice(sudo, n_found, stop_at_first_solve);
        if *n_found > 0 && stop_at_first_solve {
            return ;
        }
        if *n_found > 1 {
            return ;
        }
        sudo.remove_entry(i, j);
        assert(sudo.cells() =~= start);
        k = k + 1;
    }
}

} // verus!
