use vstd::prelude::*;
use std::collections::HashMap;
use crate::models::TowerMetadata;

verus! {

/// Nodes along one row of a layer's grid.
pub const NODES_PER_ROW: u32 = 5;

/// Rows of nodes in one layer's grid.
pub const ROWS_PER_LAYER: u32 = 4;

/// Nodes in one layer's grid.
pub const NODES_PER_LAYER: u32 = 20;

/// Grid cells (and so elements) in one layer.
pub const ELEMENTS_PER_LAYER: u32 = 12;

/// A node of the tower mesh, placed by its grid position: the layer boundary
/// it lies on (0 is the ground), its row and its column in that layer's grid.
#[derive(Clone, Copy, Debug, PartialEq, Eq, Structural)]
pub struct MeshNode {
    pub node_id: u32,
    pub layer: u32,
    pub row: u32,
    pub col: u32,
}

/// An element of the tower mesh: its identifier, the four nodes it joins and
/// the storey (1-based) that it belongs to.
#[derive(Clone, Copy, Debug)]
pub struct MeshElement {
    pub element_id: u32,
    pub node_ids: [u32; 4],
    pub layer_id: u8,
}

/// The topology of a tower's finite-element mesh: nodes, elements and the
/// position of each node identifier in `nodes`.
pub struct TowerMesh {
    pub nodes: Vec<MeshNode>,
    pub elements: Vec<MeshElement>,
    pub node_id_to_index: HashMap<u32, usize>,
}

/// The node that a built mesh holds at index `i`: identifier `i`, on layer
/// boundary `i / 20`, in row `(i % 20) / 5` and column `i % 5`.
pub open spec fn grid_node(i: int) -> MeshNode {
    MeshNode {
        node_id: i as u32,
        layer: (i / 20) as u32,
        row: ((i % 20) / 5) as u32,
        col: (i % 5) as u32,
    }
}

/// The first node of the grid cell of element `k`: the cell in storey
/// `k / 12`, row `(k % 12) / 4` and column `k % 4`.
pub open spec fn cell_origin(k: int) -> int {
    (k / 12) * 20 + ((k % 12) / 4) * 5 + k % 4
}

/// `e` is the element that a built mesh holds at index `k`: identifier `k`,
/// storey `k / 12 + 1`, joining the cell's lower-left node `n0`, its right
/// neighbour `n0 + 1`, the node above it in the next row `n0 + 5`, and that
/// node's right neighbour `n0 + 6`.
pub open spec fn is_grid_element(e: MeshElement, k: int) -> bool {
    let n0 = cell_origin(k);
    &&& e.element_id == k
    &&& e.layer_id == k / 12 + 1
    &&& e.node_ids@ == seq![n0 as u32, (n0 + 1) as u32, (n0 + 5) as u32, (n0 + 6) as u32]
}

impl TowerMesh {
    /// Every node identifier in the index map has a position whose three
    /// degrees of freedom can be numbered in a `usize`.
    pub open spec fn indices_fit(&self) -> bool {
        forall|id: u32| #[trigger] self.node_id_to_index@.contains_key(id)
            ==> 3 * self.node_id_to_index@[id] + 2 <= usize::MAX
    }

    /// The mesh is consistent: node `i` has identifier `i`, the index map
    /// sends exactly the identifiers of the nodes to their positions, and every
    /// element joins nodes of the mesh.
    pub open spec fn well_formed(&self) -> bool {
        &&& self.nodes@.len() <= 256 * 20
        &&& forall|i: int| 0 <= i < self.nodes@.len() ==> (#[trigger] self.nodes@[i]).node_id == i
        &&& forall|id: u32| #[trigger] self.node_id_to_index@.contains_key(id)
            <==> (id as int) < self.nodes@.len()
        &&& forall|id: u32| #[trigger] self.node_id_to_index@.contains_key(id)
            ==> self.node_id_to_index@[id] == id
        &&& forall|k: int, j: int| 0 <= k < self.elements@.len() && 0 <= j < 4
            ==> (#[trigger] self.elements@[k].node_ids@[j] as int) < self.nodes@.len()
    }

    /// The mesh of a tower with `layers` storeys: a 5 x 4 grid of nodes on
    /// each of the `layers + 1` layer boundaries, numbered layer by layer, row
    /// by row; and one element for each of the 4 x 3 grid cells of every
    /// storey.
    pub open spec fn is_tower_mesh(&self, layers: nat) -> bool {
        &&& self.nodes@.len() == (layers + 1) * 20
        &&& forall|i: int| 0 <= i < self.nodes@.len() ==> #[trigger] self.nodes@[i] == grid_node(i)
        &&& self.elements@.len() == layers * 12
        &&& forall|k: int| 0 <= k < self.elements@.len() ==> is_grid_element(
            #[trigger] self.elements@[k],
            k,
        )
        &&& self.node_id_to_index@ == Map::new(
            |id: u32| (id as int) < (layers + 1) * 20,
            |id: u32| id as usize,
        )
    }

    /// A mesh without nodes or elements.
    pub fn new() -> (m: TowerMesh)
        ensures
            m.nodes@.len() == 0,
            m.elements@.len() == 0,
            m.node_id_to_index@ == Map::<u32, usize>::empty(),
            m.well_formed(),
    {
        TowerMesh { nodes: Vec::new(), elements: Vec::new(), node_id_to_index: HashMap::new() }
    }
}

proof fn lemma_grid_split(i: int, l: int, r: int, c: int)
    requires
        i == l * 20 + r * 5 + c,
        0 <= l,
        0 <= r < 4,
        0 <= c < 5,
    ensures
        i / 20 == l,
        (i % 20) / 5 == r,
        i % 5 == c,
{
    assert(i / 20 == l && i % 20 == r * 5 + c) by (nonlinear_arith)
        requires
            i == l * 20 + r * 5 + c,
            0 <= l,
            0 <= r * 5 + c < 20,
    ;
    assert((r * 5 + c) / 5 == r && (r * 5 + c) % 5 == c) by (nonlinear_arith)
        requires
            0 <= r,
            0 <= c < 5,
    ;
    assert(i % 5 == c) by (nonlinear_arith)
        requires
            i == l * 20 + r * 5 + c,
            0 <= l,
            0 <= r,
            0 <= c < 5,
    ;
}

proof fn lemma_cell_split(k: int, l: int, r: int, c: int)
    requires
        k == l * 12 + r * 4 + c,
        0 <= l,
        0 <= r < 3,
        0 <= c < 4,
    ensures
        k / 12 == l,
        (k % 12) / 4 == r,
        k % 4 == c,
        cell_origin(k) == l * 20 + r * 5 + c,
{
    assert(k / 12 == l && k % 12 == r * 4 + c) by (nonlinear_arith)
        requires
            k == l * 12 + r * 4 + c,
            0 <= l,
            0 <= r * 4 + c < 12,
    ;
    assert((r * 4 + c) / 4 == r && (r * 4 + c) % 4 == c) by (nonlinear_arith)
        requires
            0 <= r,
            0 <= c < 4,
    ;
    assert(k % 4 == c) by (nonlinear_arith)
        requires
            k == l * 12 + r * 4 + c,
            0 <= l,
            0 <= r,
            0 <= c < 4,
    ;
}

impl TowerMesh {
    /// Rebuilds the mesh for `tower`, whatever the mesh held before: a 5 x 4
    /// grid of nodes on every layer boundary from the ground to the top, and
    /// one element per grid cell of every storey.
    pub fn build_tower_mesh(&mut self, tower: &TowerMetadata)
        ensures
            final(self).is_tower_mesh(tower.total_layers as nat),
            final(self).well_formed(),
    {
        self.nodes.clear();
        self.elements.clear();
        self.node_id_to_index.clear();

        let n_layers: u32 = tower.total_layers as u32;
        let mut node_id: u32 = 0;
        let mut layer: u32 = 0;
        while layer <= n_layers
            invariant
                n_layers <= 255,
                layer <= n_layers + 1,
                node_id == layer * 20,
                self.nodes@.len() == node_id,
                forall|i: int| 0 <= i < self.nodes@.len() ==> #[trigger] self.nodes@[i] == grid_node(i),
                self.node_id_to_index@ == Map::new(
                    |id: u32| (id as int) < node_id,
                    |id: u32| id as usize,
                ),
                self.elements@.len() == 0,
            decreases n_layers + 1 - layer,
        {
            let mut iy: u32 = 0;
            while iy < ROWS_PER_LAYER
                invariant
                    n_layers <= 255,
                    layer <= n_layers,
                    iy <= 4,
                    node_id == layer * 20 + iy * 5,
                    self.nodes@.len() == node_id,
                    forall|i: int| 0 <= i < self.nodes@.len() ==> #[trigger] self.nodes@[i] == grid_node(i),
                    self.node_id_to_index@ == Map::new(
                        |id: u32| (id as int) < node_id,
                        |id: u32| id as usize,
                    ),
                    self.elements@.len() == 0,
                decreases 4 - iy,
            {
                let mut ix: u32 = 0;
                while ix < NODES_PER_ROW
                    invariant
                        n_layers <= 255,
                        layer <= n_layers,
                        iy < 4,
                        ix <= 5,
                        node_id == layer * 20 + iy * 5 + ix,
                        self.nodes@.len() == node_id,
                        forall|i: int| 0 <= i < self.nodes@.len() ==> #[trigger] self.nodes@[i] == grid_node(i),
                        self.node_id_to_index@ == Map::new(
                            |id: u32| (id as int) < node_id,
                            |id: u32| id as usize,
                        ),
                        self.elements@.len() == 0,
                    decreases 5 - ix,
                {
                    proof {
                        lemma_grid_split(node_id as int, layer as int, iy as int, ix as int);
                    }
                    let node = MeshNode { node_id, layer, row: iy, col: ix };
                    let index: usize = (layer * NODES_PER_LAYER + iy * NODES_PER_ROW + ix) as usize;
                    self.node_id_to_index.insert(node_id, index);
                    self.nodes.push(node);
                    proof {
                        assert(self.node_id_to_index@ =~= Map::new(
                            |id: u32| (id as int) < node_id + 1,
                            |id: u32| id as usize,
                        ));
                    }
                    node_id = node_id + 1;
                    ix = ix + 1;
                }
                iy = iy + 1;
            }
            layer = layer + 1;
        }

        let mut elem_id: u32 = 0;
        let mut layer: u32 = 0;
        while layer < n_layers
            invariant
                n_layers <= 255,
                layer <= n_layers,
                elem_id == layer * 12,
                self.elements@.len() == elem_id,
                forall|k: int| 0 <= k < self.elements@.len() ==> is_grid_element(
                    #[trigger] self.elements@[k],
                    k,
                ),
                self.nodes@.len() == (n_layers + 1) * 20,
                forall|i: int| 0 <= i < self.nodes@.len() ==> #[trigger] self.nodes@[i] == grid_node(i),
                self.node_id_to_index@ == Map::new(
                    |id: u32| (id as int) < (n_layers + 1) * 20,
                    |id: u32| id as usize,
                ),
            decreases n_layers - layer,
        {
            let mut iy: u32 = 0;
            while iy < ROWS_PER_LAYER - 1
                invariant
                    n_layers <= 255,
                    layer < n_layers,
                    iy <= 3,
                    elem_id == layer * 12 + iy * 4,
                    self.elements@.len() == elem_id,
                    forall|k: int| 0 <= k < self.elements@.len() ==> is_grid_element(
                        #[trigger] self.elements@[k],
                        k,
                    ),
                    self.nodes@.len() == (n_layers + 1) * 20,
                    forall|i: int| 0 <= i < self.nodes@.len() ==> #[trigger] self.nodes@[i] == grid_node(i),
                    self.node_id_to_index@ == Map::new(
                        |id: u32| (id as int) < (n_layers + 1) * 20,
                        |id: u32| id as usize,
                    ),
                decreases 3 - iy,
            {
                let mut ix: u32 = 0;
                while ix < NODES_PER_ROW - 1
                    invariant
                        n_layers <= 255,
                        layer < n_layers,
                        iy < 3,
                        ix <= 4,
                        elem_id == layer * 12 + iy * 4 + ix,
                        self.elements@.len() == elem_id,
                        forall|k: int| 0 <= k < self.elements@.len() ==> is_grid_element(
                            #[trigger] self.elements@[k],
                            k,
                        ),
                        self.nodes@.len() == (n_layers + 1) * 20,
                        forall|i: int| 0 <= i < self.nodes@.len() ==> #[trigger] self.nodes@[i] == grid_node(i),
                        self.node_id_to_index@ == Map::new(
                            |id: u32| (id as int) < (n_layers + 1) * 20,
                            |id: u32| id as usize,
                        ),
                    decreases 4 - ix,
                {
                    proof {
                        lemma_cell_split(elem_id as int, layer as int, iy as int, ix as int);
                    }
                    let n0: u32 = layer * NODES_PER_LAYER + iy * NODES_PER_ROW + ix;
                    let n1: u32 = n0 + 1;
                    let n2: u32 = n0 + NODES_PER_ROW;
                    let n3: u32 = n2 + 1;
                    let elem = MeshElement {
                        element_id: elem_id,
                        node_ids: [n0, n1, n2, n3],
                        layer_id: (layer + 1) as u8,
                    };
                    assert(elem.node_ids@ =~= seq![n0, n1, n2, n3]);
                    self.elements.push(elem);
                    elem_id = elem_id + 1;
                    ix = ix + 1;
                }
                iy = iy + 1;
            }
            layer = layer + 1;
        }
        proof {
            assert forall|k: int, j: int| 0 <= k < self.elements@.len() && 0 <= j < 4 implies (
            #[trigger] self.elements@[k].node_ids@[j] as int) < self.nodes@.len() by {
                assert(is_grid_element(self.elements@[k], k));
                assert(k / 12 < n_layers && (k % 12) / 4 < 3 && k % 4 < 4) by (nonlinear_arith)
                    requires
                        0 <= k < n_layers * 12,
                ;
            }
        }
    }
}

/// The degree-of-freedom bases (three per node: x, y, z) of the nodes `ids`
/// that the index map knows, in order; identifiers it does not know are
/// skipped.
pub open spec fn dof_bases(m: Map<u32, usize>, ids: Seq<u32>) -> Seq<usize>
    decreases ids.len(),
{
    if ids.len() == 0 {
        Seq::empty()
    } else {
        let rest = dof_bases(m, ids.drop_last());
        if m.contains_key(ids.last()) {
            rest.push((3 * m[ids.last()]) as usize)
        } else {
            rest
        }
    }
}

impl TowerMesh {
    /// The position in `nodes` of the first node with identifier `node_id`,
    /// if any.
    pub fn find_node(&self, node_id: u32) -> (r: Option<usize>)
        ensures
            match r {
                Some(i) => {
                    &&& i < self.nodes@.len()
                    &&& self.nodes@[i as int].node_id == node_id
                    &&& forall|j: int| 0 <= j < i ==> #[trigger] self.nodes@[j].node_id != node_id
                },
                None => forall|j: int| 0 <= j < self.nodes@.len() ==> #[trigger] self.nodes@[j].node_id != node_id,
            },
    {
        let mut i: usize = 0;
        while i < self.nodes.len()
            invariant
                i <= self.nodes@.len(),
                forall|j: int| 0 <= j < i ==> #[trigger] self.nodes@[j].node_id != node_id,
            decreases self.nodes@.len() - i,
        {
            if self.nodes[i].node_id == node_id {
                return Some(i);
            }
            i = i + 1;
        }
        None
    }

    /// The first global degree of freedom (`3 * index`) of node `node_id`,
    /// if the index map knows the node.
    pub fn dof_base(&self, node_id: u32) -> (r: Option<usize>)
        requires
            self.indices_fit(),
        ensures
            r == (if self.node_id_to_index@.contains_key(node_id) {
                Some((3 * self.node_id_to_index@[node_id]) as usize)
            } else {
                None
            }),
            self.well_formed() ==> (r is Some <==> (node_id as int) < self.nodes@.len()),
            self.well_formed() && r is Some ==> r->0 == 3 * node_id && r->0 + 2 < 3 * self.nodes@.len(),
    {
        match self.node_id_to_index.get(&node_id) {
            Some(idx) => {
                assert(self.node_id_to_index@.contains_key(node_id));
                Some(*idx * 3)
            },
            None => None,
        }
    }

    /// The degree-of-freedom bases of the nodes of `element` that the index
    /// map knows, in the element's node order; for an element of a
    /// well-formed mesh, `3 * id` for each of its four nodes.
    pub fn element_dof_bases(&self, element: &MeshElement) -> (r: Vec<usize>)
        requires
            self.indices_fit(),
        ensures
            r@ == dof_bases(self.node_id_to_index@, element.node_ids@),
            self.well_formed() && (forall|j: int| 0 <= j < 4 ==> (#[trigger] element.node_ids@[j] as int)
                < self.nodes@.len()) ==> {
                &&& r@.len() == 4
                &&& forall|j: int| 0 <= j < 4 ==> #[trigger] r@[j] == 3 * element.node_ids@[j]
                &&& forall|j: int| 0 <= j < 4 ==> #[trigger] r@[j] + 2 < 3 * self.nodes@.len()
            },
    {
        let mut r: Vec<usize> = Vec::new();
        let mut j: usize = 0;
        while j < 4
            invariant
                j <= 4,
                element.node_ids@.len() == 4,
                self.indices_fit(),
                r@ == dof_bases(self.node_id_to_index@, element.node_ids@.take(j as int)),
            decreases 4 - j,
        {
            let id: u32 = element.node_ids[j];
            assert(element.node_ids@.take(j + 1).drop_last() =~= element.node_ids@.take(j as int));
            assert(element.node_ids@.take(j + 1).last() == id);
            match self.node_id_to_index.get(&id) {
                Some(idx) => {
                    assert(self.node_id_to_index@.contains_key(id));
                    r.push(*idx * 3);
                },
                None => {},
            }
            j = j + 1;
        }
        assert(element.node_ids@.take(4) =~= element.node_ids@);
        proof {
            if self.well_formed() && (forall|j: int| 0 <= j < 4 ==> (#[trigger] element.node_ids@[j] as int)
                < self.nodes@.len()) {
                let ids = element.node_ids@;
                let m = self.node_id_to_index@;
                assert(m.contains_key(ids[0]) && m.contains_key(ids[1]) && m.contains_key(ids[2])
                    && m.contains_key(ids[3]));
                assert(ids.take(1).drop_last() =~= ids.take(0));
                assert(ids.take(2).drop_last() =~= ids.take(1));
                assert(ids.take(3).drop_last() =~= ids.take(2));
                assert(ids.take(4).drop_last() =~= ids.take(3));
                assert(ids.take(4) =~= ids);
                reveal_with_fuel(dof_bases, 5);
                assert(dof_bases(m, ids.take(1)) =~= seq![(3 * ids[0]) as usize]);
                assert(dof_bases(m, ids.take(2)) =~= seq![(3 * ids[0]) as usize, (3 * ids[1]) as usize]);
                assert(dof_bases(m, ids.take(3)) =~= seq![(3 * ids[0]) as usize, (3 * ids[1]) as usize,
                    (3 * ids[2]) as usize]);
            }
        }
        r
    }
}

/// `raw` raised to at least 1, then lowered to at most `total_layers`.
pub open spec fn clamped_layer(raw: u8, total_layers: u8) -> u8 {
    let at_least_one: u8 = if raw < 1 { 1 } else { raw };
    if at_least_one > total_layers { total_layers } else { at_least_one }
}

/// The storey reported for a node whose height rounds up to storey `raw`:
/// at least 1, then at most `total_layers`.
pub fn clamp_layer_id(raw: u8, total_layers: u8) -> (id: u8)
    ensures
        id == clamped_layer(raw, total_layers),
        total_layers >= 1 ==> 1 <= id <= total_layers,
        1 <= raw <= total_layers ==> id == raw,
        raw == 0 && total_layers >= 1 ==> id == 1,
        raw > total_layers ==> id == total_layers,
        total_layers == 0 ==> id == 0,
{
    let at_least_one: u8 = if raw < 1 { 1 } else { raw };
    if at_least_one > total_layers {
        total_layers
    } else {
        at_least_one
    }
}

/// The reported storey is the raw storey raised to at least 1 and then
/// capped at the storey count: ground nodes (raw 0) fall in storey 1, nodes
/// above the top fall in the top storey, and every other node keeps its
/// storey.
pub proof fn lemma_clamped_layer_bounds(raw: u8, total_layers: u8)
    ensures
        clamped_layer(raw, total_layers) <= total_layers,
        total_layers >= 1 ==> clamped_layer(raw, total_layers) >= 1,
        (raw == 0 && total_layers >= 1) ==> clamped_layer(raw, total_layers) == 1,
        1 <= raw <= total_layers ==> clamped_layer(raw, total_layers) == raw,
        raw > total_layers ==> clamped_layer(raw, total_layers) == total_layers,
        clamped_layer(raw, total_layers) <= (if raw < 1 { 1 } else { raw }),
{
}

/// In a tower mesh, element `k` joins the four corners of one grid cell on
/// the layer boundary at the foot of its storey: the corner `(row, col)`,
/// its neighbours `(row, col + 1)` and `(row + 1, col)`, and `(row + 1, col + 1)`.
pub proof fn lemma_element_is_grid_cell(mesh: &TowerMesh, layers: nat, k: int)
    requires
        mesh.is_tower_mesh(layers),
        0 <= k < mesh.elements@.len(),
    ensures
        ({
            let e = mesh.elements@[k];
            let a = mesh.nodes@[e.node_ids@[0] as int];
            let b = mesh.nodes@[e.node_ids@[1] as int];
            let c = mesh.nodes@[e.node_ids@[2] as int];
            let d = mesh.nodes@[e.node_ids@[3] as int];
            &&& a.layer == e.layer_id - 1 && b.layer == a.layer && c.layer == a.layer
                && d.layer == a.layer
            &&& a.row + 1 < 4 && a.col + 1 < 5
            &&& b.row == a.row && b.col == a.col + 1
            &&& c.row == a.row + 1 && c.col == a.col
            &&& d.row == a.row + 1 && d.col == a.col + 1
        }),
{
    let e = mesh.elements@[k];
    assert(is_grid_element(e, k));
    let l = k / 12;
    let r = (k % 12) / 4;
    let c = k % 4;
    assert(0 <= l < layers && 0 <= r < 3 && 0 <= c < 4 && k == l * 12 + r * 4 + c) by (nonlinear_arith)
        requires
            0 <= k < layers * 12,
            l == k / 12,
            r == (k % 12) / 4,
            c == k % 4,
    ;
    let n0 = l * 20 + r * 5 + c;
    lemma_grid_split(n0, l, r, c);
    lemma_grid_split(n0 + 1, l, r, c + 1);
    lemma_grid_split(n0 + 5, l, r + 1, c);
    lemma_grid_split(n0 + 6, l, r + 1, c + 1);
    assert(mesh.nodes@[n0] == grid_node(n0));
    assert(mesh.nodes@[n0 + 1] == grid_node(n0 + 1));
    assert(mesh.nodes@[n0 + 5] == grid_node(n0 + 5));
    assert(mesh.nodes@[n0 + 6] == grid_node(n0 + 6));
}

/// A tower's mesh is determined by its number of storeys alone: any two
/// meshes built for the same number of storeys hold the same nodes, the same
/// elements and the same index map, whatever either held before it was built.
pub proof fn lemma_tower_mesh_unique(a: &TowerMesh, b: &TowerMesh, layers: nat)
    requires
        a.is_tower_mesh(layers),
        b.is_tower_mesh(layers),
    ensures
        a.nodes@ == b.nodes@,
        a.elements@ == b.elements@,
        a.node_id_to_index@ == b.node_id_to_index@,
{
    assert(a.nodes@ =~= b.nodes@);
    assert forall|k: int| 0 <= k < a.elements@.len() implies #[trigger] a.elements@[k] == b.elements@[k] by {
        assert(is_grid_element(a.elements@[k], k));
        assert(is_grid_element(b.elements@[k], k));
        assert(a.elements@[k].node_ids@ == b.elements@[k].node_ids@);
        assert(a.elements@[k].node_ids =~= b.elements@[k].node_ids);
    }
    assert(a.elements@ =~= b.elements@);
}

} // verus!
