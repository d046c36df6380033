use postgres_extension::{Node, NodeTag};

#[test]
fn tags_have_the_numbers_of_the_server() {
    assert_eq!(NodeTag::T_Invalid.value(), 0);
    assert_eq!(NodeTag::T_IndexInfo.value(), 10);
    assert_eq!(NodeTag::T_TupleTableSlot.value(), 16);
    assert_eq!(NodeTag::T_Plan.value(), 100);
    assert_eq!(NodeTag::T_PlanState.value(), 200);
    assert_eq!(NodeTag::T_Alias.value(), 300);
    assert_eq!(NodeTag::T_ExprState.value(), 400);
    assert_eq!(NodeTag::T_PlannerInfo.value(), 500);
    assert_eq!(NodeTag::T_MemoryContext.value(), 600);
    assert_eq!(NodeTag::T_AllocSetContext.value(), 601);
    assert_eq!(NodeTag::T_Value.value(), 650);
    assert_eq!(NodeTag::T_Query.value(), 700);
    assert_eq!(NodeTag::T_A_Expr.value(), 900);
    assert_eq!(NodeTag::T_TriggerData.value(), 950);
    assert_eq!(NodeTag::T_FdwRoutine.value(), 956);
}

#[test]
fn tag_is_found_again_by_its_number() {
    let mut found = 0;
    for v in 0..2000u32 {
        match NodeTag::from_value(v) {
            Some(tag) => {
                assert_eq!(tag.value(), v);
                found += 1;
            }
            None => {}
        }
    }
    assert_eq!(found, 348);
}

#[test]
fn numbers_between_the_families_are_no_tags() {
    for v in [1, 9, 17, 99, 138, 199, 235, 346, 427, 531, 602, 649, 659, 801, 899, 944, 949, 957, u32::MAX] {
        assert_eq!(NodeTag::from_value(v), None);
    }
}

#[test]
fn ends_of_each_family_are_tags() {
    assert_eq!(NodeTag::from_value(0), Some(NodeTag::T_Invalid));
    assert_eq!(NodeTag::from_value(10), Some(NodeTag::T_IndexInfo));
    assert_eq!(NodeTag::from_value(16), Some(NodeTag::T_TupleTableSlot));
    assert_eq!(NodeTag::from_value(137), Some(NodeTag::T_PlanInvalItem));
    assert_eq!(NodeTag::from_value(234), Some(NodeTag::T_LimitState));
    assert_eq!(NodeTag::from_value(345), Some(NodeTag::T_IntoClause));
    assert_eq!(NodeTag::from_value(426), Some(NodeTag::T_DomainConstraintState));
    assert_eq!(NodeTag::from_value(530), Some(NodeTag::T_PlannerParamItem));
    assert_eq!(NodeTag::from_value(658), Some(NodeTag::T_OidList));
    assert_eq!(NodeTag::from_value(800), Some(NodeTag::T_AlterPolicyStmt));
    assert_eq!(NodeTag::from_value(943), Some(NodeTag::T_TimeLineHistoryCmd));
    assert_eq!(NodeTag::from_value(956), Some(NodeTag::T_FdwRoutine));
}

#[test]
fn node_starts_with_its_tag() {
    let node = Node { ty: NodeTag::T_Query };
    assert_eq!(node.ty, NodeTag::T_Query);
    assert_eq!(node.ty.value(), 700);
}
