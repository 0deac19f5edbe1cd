use vstd::prelude::*;
use vstd::string::*;

use crate::ast::{
    item_id, EnumASTNode, EnumItemASTNode, EnumItemView, EnumView, StructASTNode,
    StructFieldASTNode, StructFieldView, StructView, TupleFieldView,
};
use crate::text::{cat2, decimal, decimal_string};

verus! {

/// The fields of the struct that holds the data of an enum item: none for
/// an empty item, `v0`, `v1`, ... for a tuple item, the item's own fields
/// for a struct item.
pub open spec fn item_fields(item: EnumItemView) -> Seq<StructFieldView> {
    match item {
        EnumItemView::Empty { .. } => seq![],
        EnumItemView::Tuple { values, .. } => Seq::new(
            values.len(),
            |i: int|
                StructFieldView {
                    position: values[i].position,
                    name: "v"@ + decimal(i as nat),
                    type_id: values[i].type_id,
                },
        ),
        EnumItemView::Struct { fields, .. } => fields,
    }
}

/// The struct that holds the data of item `item` of enum `node`, named by
/// the enum's id followed by the item's id; it gets an in-place codec.
pub open spec fn enum_item_struct(node: EnumView, item: EnumItemView) -> StructView {
    StructView {
        id: node.id + item_id(item),
        fields: item_fields(item),
        emplace_buffers: true,
        into_buffers: false,
    }
}

/// Builds the struct that holds the data of item `item` of enum `node`.
pub fn create_enum_item_struct_ast_node(node: &EnumASTNode, item: &EnumItemASTNode) -> (res:
    StructASTNode)
    ensures
        res@ == enum_item_struct(node@, item@),
{
    let mut fields: Vec<StructFieldASTNode> = Vec::new();
    match item {
        EnumItemASTNode::Empty { .. } => {
            assert(fields@.map_values(|f: StructFieldASTNode| f@) =~= item_fields(item@));
        },
        EnumItemASTNode::Tuple { values, .. } => {
            let ghost vs = values@.map_values(|v: crate::ast::TupleFieldASTNode| v@);
            let mut i: usize = 0;
            while i < values.len()
                invariant
                    i <= values.len(),
                    vs == values@.map_values(|v: crate::ast::TupleFieldASTNode| v@),
                    fields@.map_values(|f: StructFieldASTNode| f@) =~= Seq::new(
                        i as nat,
                        |k: int|
                            StructFieldView {
                                position: vs[k].position,
                                name: "v"@ + decimal(k as nat),
                                type_id: vs[k].type_id,
                            },
                    ),
                decreases values.len() - i,
            {
                let value = &values[i];
                proof {
                    reveal_strlit("v");
                }
                let field = StructFieldASTNode {
                    position: value.position,
                    name: cat2("v", decimal_string(i as u64).as_str()),
                    type_id: value.type_id.duplicate(),
                };
                let ghost before = fields@.map_values(|f: StructFieldASTNode| f@);
                let ghost fv = field@;
                fields.push(field);
                assert(fields@.map_values(|f: StructFieldASTNode| f@) =~= before.push(fv));
                i += 1;
            }
            let ghost got = fields@.map_values(|f: StructFieldASTNode| f@);
            let ghost want = item_fields(item@);
            assert(got.len() == want.len());
            assert forall|k: int| 0 <= k < got.len() implies got[k] == want[k] by {}
            assert(got =~= want);
        },
        EnumItemASTNode::Struct { fields: own, .. } => {
            let mut i: usize = 0;
            while i < own.len()
                invariant
                    i <= own.len(),
                    fields@.map_values(|f: StructFieldASTNode| f@) =~= own@.take(
                        i as int,
                    ).map_values(|f: StructFieldASTNode| f@),
                decreases own.len() - i,
            {
                let field = own[i].duplicate();
                let ghost before = fields@.map_values(|f: StructFieldASTNode| f@);
                let ghost fv = field@;
                fields.push(field);
                assert(fields@.map_values(|f: StructFieldASTNode| f@) =~= before.push(fv));
                assert(own@.take(i + 1).map_values(|f: StructFieldASTNode| f@)
                    =~= own@.take(i as int).map_values(|f: StructFieldASTNode| f@).push(
                    own@[i as int]@,
                ));
                i += 1;
            }
            assert(own@.take(i as int) =~= own@);
            assert(fields@.map_values(|f: StructFieldASTNode| f@) =~= item_fields(item@));
        },
    }
    let id = cat2(node.id.as_str(), item.id().as_str());
    StructASTNode { id, fields, emplace_buffers: true, into_buffers: false }
}

} // verus!
