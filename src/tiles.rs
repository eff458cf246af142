use vstd::arithmetic::div_mod::{lemma_fundamental_div_mod, lemma_fundamental_div_mod_converse};
use vstd::prelude::*;

use crate::math::{URect, UVec2};

verus! {

/// Side of a tile, in texels.
pub const TILE_SIZE: u32 = 128;

/// Side of the square cache texture, in texels; a multiple of `TILE_SIZE`.
pub const TEXTURE_SIZE: u32 = 4096;

/// A square region of the cache texture with a stable index in the grid.
#[derive(Clone, Copy, Debug, PartialEq, Eq, Structural)]
pub struct Tile {
    pub index: usize,
    pub tex_rect: URect,
}

/// Tile `k` of a grid of `per_side` x `per_side` tiles of side `tile_size`:
/// columns are laid out one after the other, `per_side` tiles each.
pub open spec fn is_grid_tile(t: Tile, k: int, per_side: int, tile_size: int) -> bool {
    &&& t.index == k
    &&& t.tex_rect.pos.x == (k / per_side) * tile_size
    &&& t.tex_rect.pos.y == (k % per_side) * tile_size
    &&& t.tex_rect.size.x == tile_size
    &&& t.tex_rect.size.y == tile_size
}

/// `tiles` is the grid that covers a square texture of side `texture_size`
/// with tiles of side `tile_size`.
pub open spec fn is_tile_grid(tiles: Seq<Tile>, texture_size: int, tile_size: int) -> bool {
    let per_side = texture_size / tile_size;
    &&& texture_size >= 0
    &&& tile_size > 0
    &&& texture_size % tile_size == 0
    &&& tiles.len() == per_side * per_side
    &&& forall|k: int| 0 <= k < tiles.len() ==> is_grid_tile(#[trigger] tiles[k], k, per_side, tile_size)
}

/// Some tile of `tiles` holds the texel `(px, py)`.
pub open spec fn covers(tiles: Seq<Tile>, px: int, py: int) -> bool {
    exists|k: int| 0 <= k < tiles.len() && (#[trigger] tiles[k]).tex_rect.contains_point(px, py)
}

/// The tile grid over a square texture of side `texture_size`.
pub fn make_tiles(texture_size: u32, tile_size: u32) -> (r: Vec<Tile>)
    requires
        tile_size > 0,
        texture_size % tile_size == 0,
        (texture_size / tile_size) * (texture_size / tile_size) <= usize::MAX,
    ensures
        is_tile_grid(r@, texture_size as int, tile_size as int),
{
    let per_side: u32 = texture_size / tile_size;
    let mut tiles: Vec<Tile> = Vec::new();
    let mut i: u32 = 0;
    proof {
        lemma_fundamental_div_mod(texture_size as int, tile_size as int);
    }
    while i < per_side
        invariant
            tile_size > 0,
            per_side == texture_size / tile_size,
            per_side * tile_size == texture_size,
            per_side * per_side <= usize::MAX,
            i <= per_side,
            tiles@.len() == i * per_side,
            forall|k: int| 0 <= k < tiles@.len() ==> is_grid_tile(#[trigger] tiles@[k], k, per_side as int, tile_size as int),
        decreases per_side - i,
    {
        proof {
            assert(i * tile_size < texture_size) by (nonlinear_arith)
                requires
                    i < per_side,
                    per_side * tile_size == texture_size,
                    tile_size > 0,
            ;
            assert((i + 1) * per_side <= per_side * per_side) by (nonlinear_arith)
                requires
                    i < per_side,
            ;
            assert((i + 1) * per_side == i * per_side + per_side) by (nonlinear_arith);
        }
        let mut j: u32 = 0;
        while j < per_side
            invariant
                tile_size > 0,
                per_side == texture_size / tile_size,
                per_side * tile_size == texture_size,
                per_side * per_side <= usize::MAX,
                i < per_side,
                i * tile_size < texture_size,
                (i + 1) * per_side <= per_side * per_side,
                j <= per_side,
                tiles@.len() == i * per_side + j,
                forall|k: int| 0 <= k < tiles@.len() ==> is_grid_tile(#[trigger] tiles@[k], k, per_side as int, tile_size as int),
            decreases per_side - j,
        {
            proof {
                assert(j * tile_size < texture_size) by (nonlinear_arith)
                    requires
                        j < per_side,
                        per_side * tile_size == texture_size,
                        tile_size > 0,
                ;
                lemma_fundamental_div_mod_converse(
                    tiles@.len() as int,
                    per_side as int,
                    i as int,
                    j as int,
                );
            }
            let index = tiles.len();
            let tex_rect = URect {
                pos: UVec2 { x: i * tile_size, y: j * tile_size },
                size: UVec2 { x: tile_size, y: tile_size },
            };
            tiles.push(Tile { index, tex_rect });
            j += 1;
        }
        i += 1;
    }
    tiles
}

/// `order` lists every index below `keys.len()` exactly once.
pub open spec fn is_index_permutation(order: Seq<usize>, n: int) -> bool {
    &&& order.len() == n
    &&& forall|i: int| 0 <= i < n ==> (#[trigger] order[i]) < n
    &&& forall|i: int, j: int| 0 <= i < j < n ==> #[trigger] order[i] != #[trigger] order[j]
}

/// The keys of `order`'s entries never decrease.
pub open spec fn ascending_by(order: Seq<usize>, keys: Seq<u64>) -> bool {
    forall|i: int, j: int| 0 <= i < j < order.len() ==> keys[#[trigger] order[i] as int] <= keys[#[trigger] order[j] as int]
}

/// The indices of `keys`, ordered by ascending key (the scheduling order:
/// a tile's key grows with its distance from the focus point). Among equal
/// keys, lower indices come first.
pub fn order_by_key(keys: &Vec<u64>) -> (order: Vec<usize>)
    ensures
        is_index_permutation(order@, keys@.len() as int),
        ascending_by(order@, keys@),
{
    let n = keys.len();
    let mut order: Vec<usize> = Vec::with_capacity(n);
    let mut k: usize = 0;
    while k < n
        invariant
            n == keys@.len(),
            k <= n,
            order@.len() == k,
            forall|i: int| 0 <= i < k ==> (#[trigger] order@[i]) < k,
            forall|i: int, j: int| 0 <= i < j < k ==> #[trigger] order@[i] != #[trigger] order@[j],
            ascending_by(order@, keys@),
        decreases n - k,
    {
        let key = keys[k];
        let mut p: usize = 0;
        while p < order.len() && keys[order[p]] <= key
            invariant
                n == keys@.len(),
                k < n,
                order@.len() == k,
                p <= k,
                forall|i: int| 0 <= i < k ==> (#[trigger] order@[i]) < k,
                forall|i: int| 0 <= i < p ==> keys@[(#[trigger] order@[i]) as int] <= key,
            decreases k - p,
        {
            p += 1;
        }
        let ghost before = order@;
        order.insert(p, k);
        proof {
            before.insert_ensures(p as int, k);
            assert(order@ == before.insert(p as int, k));
            assert forall|i: int| 0 <= i < k + 1 implies (#[trigger] order@[i]) < k + 1 by {
                if i > p {
                    assert(order@[i] == before[i - 1]);
                }
            }
            assert forall|i: int, j: int| 0 <= i < j < k + 1 implies #[trigger] order@[i] != #[trigger] order@[j] by {
                if j < p {
                } else if j == p {
                    assert(order@[i] == before[i]);
                } else if i < p {
                    assert(order@[j] == before[j - 1]);
                } else if i == p {
                    assert(order@[j] == before[j - 1]);
                } else {
                    assert(order@[i] == before[i - 1]);
                    assert(order@[j] == before[j - 1]);
                }
            }
            assert forall|i: int, j: int| 0 <= i < j < order@.len() implies keys@[(#[trigger] order@[i]) as int]
                <= keys@[(#[trigger] order@[j]) as int] by {
                if p < k {
                    assert(keys@[before[p as int] as int] > key);
                }
                if j < p {
                } else if j == p {
                    assert(order@[i] == before[i]);
                } else if i < p {
                    assert(order@[j] == before[j - 1]);
                    assert(keys@[before[p as int] as int] <= keys@[before[j - 1] as int] || j - 1 == p);
                } else if i == p {
                    assert(order@[j] == before[j - 1]);
                    assert(keys@[before[p as int] as int] <= keys@[before[j - 1] as int] || j - 1 == p);
                } else {
                    assert(order@[i] == before[i - 1]);
                    assert(order@[j] == before[j - 1]);
                }
            }
        }
        k += 1;
    }
    order
}

/// The tile grid exactly tiles the texture: every tile lies inside it,
/// every texel lies in some tile, and no two tiles overlap.
pub proof fn lemma_tiles_partition_texture(tiles: Seq<Tile>, texture_size: int, tile_size: int)
    requires
        is_tile_grid(tiles, texture_size, tile_size),
    ensures
        forall|k: int|
            0 <= k < tiles.len() ==> (#[trigger] tiles[k]).tex_rect.pos.x + tiles[k].tex_rect.size.x
                <= texture_size && tiles[k].tex_rect.pos.y + tiles[k].tex_rect.size.y <= texture_size,
        forall|px: int, py: int|
            0 <= px < texture_size && 0 <= py < texture_size ==> #[trigger] covers(tiles, px, py),
        forall|k1: int, k2: int|
            0 <= k1 < tiles.len() && 0 <= k2 < tiles.len() && k1 != k2 ==> !(#[trigger] tiles[k1]).tex_rect.overlaps(
                #[trigger] tiles[k2].tex_rect,
            ),
{
    let n = texture_size / tile_size;
    let t = tile_size;
    lemma_fundamental_div_mod(texture_size, t);
    assert(n * t == texture_size);
    assert(n >= 0) by (nonlinear_arith)
        requires
            n * t == texture_size,
            texture_size >= 0,
            t > 0,
    ;
    assert forall|k: int| 0 <= k < tiles.len() implies (#[trigger] tiles[k]).tex_rect.pos.x
        + tiles[k].tex_rect.size.x <= texture_size && tiles[k].tex_rect.pos.y + tiles[k].tex_rect.size.y
        <= texture_size by {
        assert(is_grid_tile(tiles[k], k, n, t));
        lemma_index_in_grid(k, n);
        assert((k / n) * t + t <= texture_size) by (nonlinear_arith)
            requires
                k / n < n,
                n * t == texture_size,
                t > 0,
        ;
        assert((k % n) * t + t <= texture_size) by (nonlinear_arith)
            requires
                k % n < n,
                n * t == texture_size,
                t > 0,
        ;
    }
    assert forall|px: int, py: int| 0 <= px < texture_size && 0 <= py < texture_size implies #[trigger] covers(
        tiles,
        px,
        py,
    ) by {
        let i = px / t;
        let j = py / t;
        lemma_fundamental_div_mod(px, t);
        lemma_fundamental_div_mod(py, t);
        assert(i < n && j < n) by (nonlinear_arith)
            requires
                t * i + px % t == px,
                t * j + py % t == py,
                px % t >= 0,
                py % t >= 0,
                px < texture_size,
                py < texture_size,
                n * t == texture_size,
                t > 0,
        ;
        assert(0 <= i && 0 <= j) by (nonlinear_arith)
            requires
                t * i + px % t == px,
                t * j + py % t == py,
                px % t < t,
                py % t < t,
                px >= 0,
                py >= 0,
                t > 0,
        ;
        let k = i * n + j;
        assert(0 <= k < n * n) by (nonlinear_arith)
            requires
                0 <= i < n,
                0 <= j < n,
                k == i * n + j,
        ;
        lemma_fundamental_div_mod_converse(k, n, i, j);
        assert(is_grid_tile(tiles[k], k, n, t));
        assert(i * t == t * i && j * t == t * j) by (nonlinear_arith);
        assert(tiles[k].tex_rect.pos.x == i * t && tiles[k].tex_rect.pos.y == j * t);
        assert(tiles[k].tex_rect.contains_point(px, py));
    }
    assert forall|k1: int, k2: int|
        0 <= k1 < tiles.len() && 0 <= k2 < tiles.len() && k1 != k2 implies !(#[trigger] tiles[k1]).tex_rect.overlaps(
        #[trigger] tiles[k2].tex_rect,
    ) by {
        assert(is_grid_tile(tiles[k1], k1, n, t));
        assert(is_grid_tile(tiles[k2], k2, n, t));
        lemma_index_in_grid(k1, n);
        lemma_index_in_grid(k2, n);
        if tiles[k1].tex_rect.overlaps(tiles[k2].tex_rect) {
            lemma_same_cell(k1 / n, k2 / n, t);
            lemma_same_cell(k1 % n, k2 % n, t);
            lemma_fundamental_div_mod(k1, n);
            lemma_fundamental_div_mod(k2, n);
        }
    }
}

/// Column and row of grid index `k` when `0 <= k < n * n`.
proof fn lemma_index_in_grid(k: int, n: int)
    requires
        0 <= k,
        k < n * n,
        n >= 0,
    ensures
        n > 0,
        0 <= k / n < n,
        0 <= k % n < n,
{
    if n == 0 {
        assert(n * n == 0);
    }
    lemma_fundamental_div_mod(k, n);
    assert(0 <= k / n < n) by (nonlinear_arith)
        requires
            n * (k / n) + k % n == k,
            0 <= k % n < n,
            0 <= k < n * n,
            n > 0,
    ;
}

/// Two cells of side `t` that overlap are the same cell.
proof fn lemma_same_cell(a: int, b: int, t: int)
    requires
        t > 0,
        a * t < b * t + t,
        a * t + t > b * t,
    ensures
        a == b,
{
    assert(a < b + 1) by (nonlinear_arith)
        requires
            t > 0,
            a * t < b * t + t,
    ;
    assert(b < a + 1) by (nonlinear_arith)
        requires
            t > 0,
            a * t + t > b * t,
    ;
}

} // verus!
