//! Node tags: the numbers by which the server tells its node types apart.
//! Every node starts with its tag.

use vstd::prelude::*;

verus! {

/// The type of a node. The server knows each by a number, which `value`
/// gives and `from_value` reads.
#[allow(non_camel_case_types)]
#[derive(Clone, Copy, Debug, PartialEq, Eq, Structural)]
pub enum NodeTag {
    T_Invalid,
    T_IndexInfo,
    T_ExprContext,
    T_ProjectionInfo,
    T_JunkFilter,
    T_ResultRelInfo,
    T_EState,
    T_TupleTableSlot,
    T_Plan,
    T_Result,
    T_ModifyTable,
    T_Append,
    T_MergeAppend,
    T_RecursiveUnion,
    T_BitmapAnd,
    T_BitmapOr,
    T_Scan,
    T_SeqScan,
    T_IndexScan,
    T_IndexOnlyScan,
    T_BitmapIndexScan,
    T_BitmapHeapScan,
    T_TidScan,
    T_SubqueryScan,
    T_FunctionScan,
    T_ValuesScan,
    T_CteScan,
    T_WorkTableScan,
    T_ForeignScan,
    T_Join,
    T_NestLoop,
    T_MergeJoin,
    T_HashJoin,
    T_Material,
    T_Sort,
    T_Group,
    T_Agg,
    T_WindowAgg,
    T_Unique,
    T_Hash,
    T_SetOp,
    T_LockRows,
    T_Limit,
    T_NestLoopParam,
    T_PlanRowMark,
    T_PlanInvalItem,
    T_PlanState,
    T_ResultState,
    T_ModifyTableState,
    T_AppendState,
    T_MergeAppendState,
    T_RecursiveUnionState,
    T_BitmapAndState,
    T_BitmapOrState,
    T_ScanState,
    T_SeqScanState,
    T_IndexScanState,
    T_IndexOnlyScanState,
    T_BitmapIndexScanState,
    T_BitmapHeapScanState,
    T_TidScanState,
    T_SubqueryScanState,
    T_FunctionScanState,
    T_ValuesScanState,
    T_CteScanState,
    T_WorkTableScanState,
    T_ForeignScanState,
    T_JoinState,
    T_NestLoopState,
    T_MergeJoinState,
    T_HashJoinState,
    T_MaterialState,
    T_SortState,
    T_GroupState,
    T_AggState,
    T_WindowAggState,
    T_UniqueState,
    T_HashState,
    T_SetOpState,
    T_LockRowsState,
    T_LimitState,
    T_Alias,
    T_RangeVar,
    T_Expr,
    T_Var,
    T_Const,
    T_Param,
    T_Aggref,
    T_WindowFunc,
    T_ArrayRef,
    T_FuncExpr,
    T_NamedArgExpr,
    T_OpExpr,
    T_DistinctExpr,
    T_NullIfExpr,
    T_ScalarArrayOpExpr,
    T_BoolExpr,
    T_SubLink,
    T_SubPlan,
    T_AlternativeSubPlan,
    T_FieldSelect,
    T_FieldStore,
    T_RelabelType,
    T_CoerceViaIO,
    T_ArrayCoerceExpr,
    T_ConvertRowtypeExpr,
    T_CollateExpr,
    T_CaseExpr,
    T_CaseWhen,
    T_CaseTestExpr,
    T_ArrayExpr,
    T_RowExpr,
    T_RowCompareExpr,
    T_CoalesceExpr,
    T_MinMaxExpr,
    T_XmlExpr,
    T_NullTest,
    T_BooleanTest,
    T_CoerceToDomain,
    T_CoerceToDomainValue,
    T_SetToDefault,
    T_CurrentOfExpr,
    T_TargetEntry,
    T_RangeTblRef,
    T_JoinExpr,
    T_FromExpr,
    T_IntoClause,
    T_ExprState,
    T_GenericExprState,
    T_WholeRowVarExprState,
    T_AggrefExprState,
    T_WindowFuncExprState,
    T_ArrayRefExprState,
    T_FuncExprState,
    T_ScalarArrayOpExprState,
    T_BoolExprState,
    T_SubPlanState,
    T_AlternativeSubPlanState,
    T_FieldSelectState,
    T_FieldStoreState,
    T_CoerceViaIOState,
    T_ArrayCoerceExprState,
    T_ConvertRowtypeExprState,
    T_CaseExprState,
    T_CaseWhenState,
    T_ArrayExprState,
    T_RowExprState,
    T_RowCompareExprState,
    T_CoalesceExprState,
    T_MinMaxExprState,
    T_XmlExprState,
    T_NullTestState,
    T_CoerceToDomainState,
    T_DomainConstraintState,
    T_PlannerInfo,
    T_PlannerGlobal,
    T_RelOptInfo,
    T_IndexOptInfo,
    T_ParamPathInfo,
    T_Path,
    T_IndexPath,
    T_BitmapHeapPath,
    T_BitmapAndPath,
    T_BitmapOrPath,
    T_NestPath,
    T_MergePath,
    T_HashPath,
    T_TidPath,
    T_ForeignPath,
    T_AppendPath,
    T_MergeAppendPath,
    T_ResultPath,
    T_MaterialPath,
    T_UniquePath,
    T_EquivalenceClass,
    T_EquivalenceMember,
    T_PathKey,
    T_RestrictInfo,
    T_PlaceHolderVar,
    T_SpecialJoinInfo,
    T_LateralJoinInfo,
    T_AppendRelInfo,
    T_PlaceHolderInfo,
    T_MinMaxAggInfo,
    T_PlannerParamItem,
    T_MemoryContext,
    T_AllocSetContext,
    T_Value,
    T_Integer,
    T_Float,
    T_String,
    T_BitString,
    T_Null,
    T_List,
    T_IntList,
    T_OidList,
    T_Query,
    T_PlannedStmt,
    T_InsertStmt,
    T_DeleteStmt,
    T_UpdateStmt,
    T_SelectStmt,
    T_AlterTableStmt,
    T_AlterTableCmd,
    T_AlterDomainStmt,
    T_SetOperationStmt,
    T_GrantStmt,
    T_GrantRoleStmt,
    T_AlterDefaultPrivilegesStmt,
    T_ClosePortalStmt,
    T_ClusterStmt,
    T_CopyStmt,
    T_CreateStmt,
    T_DefineStmt,
    T_DropStmt,
    T_TruncateStmt,
    T_CommentStmt,
    T_FetchStmt,
    T_IndexStmt,
    T_CreateFunctionStmt,
    T_AlterFunctionStmt,
    T_DoStmt,
    T_RenameStmt,
    T_RuleStmt,
    T_NotifyStmt,
    T_ListenStmt,
    T_UnlistenStmt,
    T_TransactionStmt,
    T_ViewStmt,
    T_LoadStmt,
    T_CreateDomainStmt,
    T_CreatedbStmt,
    T_DropdbStmt,
    T_VacuumStmt,
    T_ExplainStmt,
    T_CreateTableAsStmt,
    T_CreateSeqStmt,
    T_AlterSeqStmt,
    T_VariableSetStmt,
    T_VariableShowStmt,
    T_DiscardStmt,
    T_CreateTrigStmt,
    T_CreatePLangStmt,
    T_CreateRoleStmt,
    T_AlterRoleStmt,
    T_DropRoleStmt,
    T_LockStmt,
    T_ConstraintsSetStmt,
    T_ReindexStmt,
    T_CheckPointStmt,
    T_CreateSchemaStmt,
    T_AlterDatabaseStmt,
    T_AlterDatabaseSetStmt,
    T_AlterRoleSetStmt,
    T_CreateConversionStmt,
    T_CreateCastStmt,
    T_CreateOpClassStmt,
    T_CreateOpFamilyStmt,
    T_AlterOpFamilyStmt,
    T_PrepareStmt,
    T_ExecuteStmt,
    T_DeallocateStmt,
    T_DeclareCursorStmt,
    T_CreateTableSpaceStmt,
    T_DropTableSpaceStmt,
    T_AlterObjectSchemaStmt,
    T_AlterOwnerStmt,
    T_DropOwnedStmt,
    T_ReassignOwnedStmt,
    T_CompositeTypeStmt,
    T_CreateEnumStmt,
    T_CreateRangeStmt,
    T_AlterEnumStmt,
    T_AlterTSDictionaryStmt,
    T_AlterTSConfigurationStmt,
    T_CreateFdwStmt,
    T_AlterFdwStmt,
    T_CreateForeignServerStmt,
    T_AlterForeignServerStmt,
    T_CreateUserMappingStmt,
    T_AlterUserMappingStmt,
    T_DropUserMappingStmt,
    T_AlterTableSpaceOptionsStmt,
    T_AlterTableMoveAllStmt,
    T_SecLabelStmt,
    T_CreateForeignTableStmt,
    T_ImportForeignSchemaStmt,
    T_CreateExtensionStmt,
    T_AlterExtensionStmt,
    T_AlterExtensionContentsStmt,
    T_CreateEventTrigStmt,
    T_AlterEventTrigStmt,
    T_RefreshMatViewStmt,
    T_ReplicaIdentityStmt,
    T_AlterSystemStmt,
    T_CreatePolicyStmt,
    T_AlterPolicyStmt,
    T_A_Expr,
    T_ColumnRef,
    T_ParamRef,
    T_A_Const,
    T_FuncCall,
    T_A_Star,
    T_A_Indices,
    T_A_Indirection,
    T_A_ArrayExpr,
    T_ResTarget,
    T_MultiAssignRef,
    T_TypeCast,
    T_CollateClause,
    T_SortBy,
    T_WindowDef,
    T_RangeSubselect,
    T_RangeFunction,
    T_TypeName,
    T_ColumnDef,
    T_IndexElem,
    T_Constraint,
    T_DefElem,
    T_RangeTblEntry,
    T_RangeTblFunction,
    T_WithCheckOption,
    T_SortGroupClause,
    T_WindowClause,
    T_PrivGrantee,
    T_FuncWithArgs,
    T_AccessPriv,
    T_CreateOpClassItem,
    T_TableLikeClause,
    T_FunctionParameter,
    T_LockingClause,
    T_RowMarkClause,
    T_XmlSerialize,
    T_WithClause,
    T_CommonTableExpr,
    T_IdentifySystemCmd,
    T_BaseBackupCmd,
    T_CreateReplicationSlotCmd,
    T_DropReplicationSlotCmd,
    T_StartReplicationCmd,
    T_TimeLineHistoryCmd,
    T_TriggerData,
    T_EventTriggerData,
    T_ReturnSetInfo,
    T_WindowObjectData,
    T_TIDBitmap,
    T_InlineCodeBlock,
    T_FdwRoutine,
}

/// The number that the server knows `tag` by.
pub open spec fn tag_number(tag: NodeTag) -> int {
    match tag {
        NodeTag::T_Invalid => 0,
        NodeTag::T_IndexInfo => 10,
        NodeTag::T_ExprContext => 11,
        NodeTag::T_ProjectionInfo => 12,
        NodeTag::T_JunkFilter => 13,
        NodeTag::T_ResultRelInfo => 14,
        NodeTag::T_EState => 15,
        NodeTag::T_TupleTableSlot => 16,
        NodeTag::T_Plan => 100,
        NodeTag::T_Result => 101,
        NodeTag::T_ModifyTable => 102,
        NodeTag::T_Append => 103,
        NodeTag::T_MergeAppend => 104,
        NodeTag::T_RecursiveUnion => 105,
        NodeTag::T_BitmapAnd => 106,
        NodeTag::T_BitmapOr => 107,
        NodeTag::T_Scan => 108,
        NodeTag::T_SeqScan => 109,
        NodeTag::T_IndexScan => 110,
        NodeTag::T_IndexOnlyScan => 111,
        NodeTag::T_BitmapIndexScan => 112,
        NodeTag::T_BitmapHeapScan => 113,
        NodeTag::T_TidScan => 114,
        NodeTag::T_SubqueryScan => 115,
        NodeTag::T_FunctionScan => 116,
        NodeTag::T_ValuesScan => 117,
        NodeTag::T_CteScan => 118,
        NodeTag::T_WorkTableScan => 119,
        NodeTag::T_ForeignScan => 120,
        NodeTag::T_Join => 121,
        NodeTag::T_NestLoop => 122,
        NodeTag::T_MergeJoin => 123,
        NodeTag::T_HashJoin => 124,
        NodeTag::T_Material => 125,
        NodeTag::T_Sort => 126,
        NodeTag::T_Group => 127,
        NodeTag::T_Agg => 128,
        NodeTag::T_WindowAgg => 129,
        NodeTag::T_Unique => 130,
        NodeTag::T_Hash => 131,
        NodeTag::T_SetOp => 132,
        NodeTag::T_LockRows => 133,
        NodeTag::T_Limit => 134,
        NodeTag::T_NestLoopParam => 135,
        NodeTag::T_PlanRowMark => 136,
        NodeTag::T_PlanInvalItem => 137,
        NodeTag::T_PlanState => 200,
        NodeTag::T_ResultState => 201,
        NodeTag::T_ModifyTableState => 202,
        NodeTag::T_AppendState => 203,
        NodeTag::T_MergeAppendState => 204,
        NodeTag::T_RecursiveUnionState => 205,
        NodeTag::T_BitmapAndState => 206,
        NodeTag::T_BitmapOrState => 207,
        NodeTag::T_ScanState => 208,
        NodeTag::T_SeqScanState => 209,
        NodeTag::T_IndexScanState => 210,
        NodeTag::T_IndexOnlyScanState => 211,
        NodeTag::T_BitmapIndexScanState => 212,
        NodeTag::T_BitmapHeapScanState => 213,
        NodeTag::T_TidScanState => 214,
        NodeTag::T_SubqueryScanState => 215,
        NodeTag::T_FunctionScanState => 216,
        NodeTag::T_ValuesScanState => 217,
        NodeTag::T_CteScanState => 218,
        NodeTag::T_WorkTableScanState => 219,
        NodeTag::T_ForeignScanState => 220,
        NodeTag::T_JoinState => 221,
        NodeTag::T_NestLoopState => 222,
        NodeTag::T_MergeJoinState => 223,
        NodeTag::T_HashJoinState => 224,
        NodeTag::T_MaterialState => 225,
        NodeTag::T_SortState => 226,
        NodeTag::T_GroupState => 227,
        NodeTag::T_AggState => 228,
        NodeTag::T_WindowAggState => 229,
        NodeTag::T_UniqueState => 230,
        NodeTag::T_HashState => 231,
        NodeTag::T_SetOpState => 232,
        NodeTag::T_LockRowsState => 233,
        NodeTag::T_LimitState => 234,
        NodeTag::T_Alias => 300,
        NodeTag::T_RangeVar => 301,
        NodeTag::T_Expr => 302,
        NodeTag::T_Var => 303,
        NodeTag::T_Const => 304,
        NodeTag::T_Param => 305,
        NodeTag::T_Aggref => 306,
        NodeTag::T_WindowFunc => 307,
        NodeTag::T_ArrayRef => 308,
        NodeTag::T_FuncExpr => 309,
        NodeTag::T_NamedArgExpr => 310,
        NodeTag::T_OpExpr => 311,
        NodeTag::T_DistinctExpr => 312,
        NodeTag::T_NullIfExpr => 313,
        NodeTag::T_ScalarArrayOpExpr => 314,
        NodeTag::T_BoolExpr => 315,
        NodeTag::T_SubLink => 316,
        NodeTag::T_SubPlan => 317,
        NodeTag::T_AlternativeSubPlan => 318,
        NodeTag::T_FieldSelect => 319,
        NodeTag::T_FieldStore => 320,
        NodeTag::T_RelabelType => 321,
        NodeTag::T_CoerceViaIO => 322,
        NodeTag::T_ArrayCoerceExpr => 323,
        NodeTag::T_ConvertRowtypeExpr => 324,
        NodeTag::T_CollateExpr => 325,
        NodeTag::T_CaseExpr => 326,
        NodeTag::T_CaseWhen => 327,
        NodeTag::T_CaseTestExpr => 328,
        NodeTag::T_ArrayExpr => 329,
        NodeTag::T_RowExpr => 330,
        NodeTag::T_RowCompareExpr => 331,
        NodeTag::T_CoalesceExpr => 332,
        NodeTag::T_MinMaxExpr => 333,
        NodeTag::T_XmlExpr => 334,
        NodeTag::T_NullTest => 335,
        NodeTag::T_BooleanTest => 336,
        NodeTag::T_CoerceToDomain => 337,
        NodeTag::T_CoerceToDomainValue => 338,
        NodeTag::T_SetToDefault => 339,
        NodeTag::T_CurrentOfExpr => 340,
        NodeTag::T_TargetEntry => 341,
        NodeTag::T_RangeTblRef => 342,
        NodeTag::T_JoinExpr => 343,
        NodeTag::T_FromExpr => 344,
        NodeTag::T_IntoClause => 345,
        NodeTag::T_ExprState => 400,
        NodeTag::T_GenericExprState => 401,
        NodeTag::T_WholeRowVarExprState => 402,
        NodeTag::T_AggrefExprState => 403,
        NodeTag::T_WindowFuncExprState => 404,
        NodeTag::T_ArrayRefExprState => 405,
        NodeTag::T_FuncExprState => 406,
        NodeTag::T_ScalarArrayOpExprState => 407,
        NodeTag::T_BoolExprState => 408,
        NodeTag::T_SubPlanState => 409,
        NodeTag::T_AlternativeSubPlanState => 410,
        NodeTag::T_FieldSelectState => 411,
        NodeTag::T_FieldStoreState => 412,
        NodeTag::T_CoerceViaIOState => 413,
        NodeTag::T_ArrayCoerceExprState => 414,
        NodeTag::T_ConvertRowtypeExprState => 415,
        NodeTag::T_CaseExprState => 416,
        NodeTag::T_CaseWhenState => 417,
        NodeTag::T_ArrayExprState => 418,
        NodeTag::T_RowExprState => 419,
        NodeTag::T_RowCompareExprState => 420,
        NodeTag::T_CoalesceExprState => 421,
        NodeTag::T_MinMaxExprState => 422,
        NodeTag::T_XmlExprState => 423,
        NodeTag::T_NullTestState => 424,
        NodeTag::T_CoerceToDomainState => 425,
        NodeTag::T_DomainConstraintState => 426,
        NodeTag::T_PlannerInfo => 500,
        NodeTag::T_PlannerGlobal => 501,
        NodeTag::T_RelOptInfo => 502,
        NodeTag::T_IndexOptInfo => 503,
        NodeTag::T_ParamPathInfo => 504,
        NodeTag::T_Path => 505,
        NodeTag::T_IndexPath => 506,
        NodeTag::T_BitmapHeapPath => 507,
        NodeTag::T_BitmapAndPath => 508,
        NodeTag::T_BitmapOrPath => 509,
        NodeTag::T_NestPath => 510,
        NodeTag::T_MergePath => 511,
        NodeTag::T_HashPath => 512,
        NodeTag::T_TidPath => 513,
        NodeTag::T_ForeignPath => 514,
        NodeTag::T_AppendPath => 515,
        NodeTag::T_MergeAppendPath => 516,
        NodeTag::T_ResultPath => 517,
        NodeTag::T_MaterialPath => 518,
        NodeTag::T_UniquePath => 519,
        NodeTag::T_EquivalenceClass => 520,
        NodeTag::T_EquivalenceMember => 521,
        NodeTag::T_PathKey => 522,
        NodeTag::T_RestrictInfo => 523,
        NodeTag::T_PlaceHolderVar => 524,
        NodeTag::T_SpecialJoinInfo => 525,
        NodeTag::T_LateralJoinInfo => 526,
        NodeTag::T_AppendRelInfo => 527,
        NodeTag::T_PlaceHolderInfo => 528,
        NodeTag::T_MinMaxAggInfo => 529,
        NodeTag::T_PlannerParamItem => 530,
        NodeTag::T_MemoryContext => 600,
        NodeTag::T_AllocSetContext => 601,
        NodeTag::T_Value => 650,
        NodeTag::T_Integer => 651,
        NodeTag::T_Float => 652,
        NodeTag::T_String => 653,
        NodeTag::T_BitString => 654,
        NodeTag::T_Null => 655,
        NodeTag::T_List => 656,
        NodeTag::T_IntList => 657,
        NodeTag::T_OidList => 658,
        NodeTag::T_Query => 700,
        NodeTag::T_PlannedStmt => 701,
        NodeTag::T_InsertStmt => 702,
        NodeTag::T_DeleteStmt => 703,
        NodeTag::T_UpdateStmt => 704,
        NodeTag::T_SelectStmt => 705,
        NodeTag::T_AlterTableStmt => 706,
        NodeTag::T_AlterTableCmd => 707,
        NodeTag::T_AlterDomainStmt => 708,
        NodeTag::T_SetOperationStmt => 709,
        NodeTag::T_GrantStmt => 710,
        NodeTag::T_GrantRoleStmt => 711,
        NodeTag::T_AlterDefaultPrivilegesStmt => 712,
        NodeTag::T_ClosePortalStmt => 713,
        NodeTag::T_ClusterStmt => 714,
        NodeTag::T_CopyStmt => 715,
        NodeTag::T_CreateStmt => 716,
        NodeTag::T_DefineStmt => 717,
        NodeTag::T_DropStmt => 718,
        NodeTag::T_TruncateStmt => 719,
        NodeTag::T_CommentStmt => 720,
        NodeTag::T_FetchStmt => 721,
        NodeTag::T_IndexStmt => 722,
        NodeTag::T_CreateFunctionStmt => 723,
        NodeTag::T_AlterFunctionStmt => 724,
        NodeTag::T_DoStmt => 725,
        NodeTag::T_RenameStmt => 726,
        NodeTag::T_RuleStmt => 727,
        NodeTag::T_NotifyStmt => 728,
        NodeTag::T_ListenStmt => 729,
        NodeTag::T_UnlistenStmt => 730,
        NodeTag::T_TransactionStmt => 731,
        NodeTag::T_ViewStmt => 732,
        NodeTag::T_LoadStmt => 733,
        NodeTag::T_CreateDomainStmt => 734,
        NodeTag::T_CreatedbStmt => 735,
        NodeTag::T_DropdbStmt => 736,
        NodeTag::T_VacuumStmt => 737,
        NodeTag::T_ExplainStmt => 738,
        NodeTag::T_CreateTableAsStmt => 739,
        NodeTag::T_CreateSeqStmt => 740,
        NodeTag::T_AlterSeqStmt => 741,
        NodeTag::T_VariableSetStmt => 742,
        NodeTag::T_VariableShowStmt => 743,
        NodeTag::T_DiscardStmt => 744,
        NodeTag::T_CreateTrigStmt => 745,
        NodeTag::T_CreatePLangStmt => 746,
        NodeTag::T_CreateRoleStmt => 747,
        NodeTag::T_AlterRoleStmt => 748,
        NodeTag::T_DropRoleStmt => 749,
        NodeTag::T_LockStmt => 750,
        NodeTag::T_ConstraintsSetStmt => 751,
        NodeTag::T_ReindexStmt => 752,
        NodeTag::T_CheckPointStmt => 753,
        NodeTag::T_CreateSchemaStmt => 754,
        NodeTag::T_AlterDatabaseStmt => 755,
        NodeTag::T_AlterDatabaseSetStmt => 756,
        NodeTag::T_AlterRoleSetStmt => 757,
        NodeTag::T_CreateConversionStmt => 758,
        NodeTag::T_CreateCastStmt => 759,
        NodeTag::T_CreateOpClassStmt => 760,
        NodeTag::T_CreateOpFamilyStmt => 761,
        NodeTag::T_AlterOpFamilyStmt => 762,
        NodeTag::T_PrepareStmt => 763,
        NodeTag::T_ExecuteStmt => 764,
        NodeTag::T_DeallocateStmt => 765,
        NodeTag::T_DeclareCursorStmt => 766,
        NodeTag::T_CreateTableSpaceStmt => 767,
        NodeTag::T_DropTableSpaceStmt => 768,
        NodeTag::T_AlterObjectSchemaStmt => 769,
        NodeTag::T_AlterOwnerStmt => 770,
        NodeTag::T_DropOwnedStmt => 771,
        NodeTag::T_ReassignOwnedStmt => 772,
        NodeTag::T_CompositeTypeStmt => 773,
        NodeTag::T_CreateEnumStmt => 774,
        NodeTag::T_CreateRangeStmt => 775,
        NodeTag::T_AlterEnumStmt => 776,
        NodeTag::T_AlterTSDictionaryStmt => 777,
        NodeTag::T_AlterTSConfigurationStmt => 778,
        NodeTag::T_CreateFdwStmt => 779,
        NodeTag::T_AlterFdwStmt => 780,
        NodeTag::T_CreateForeignServerStmt => 781,
        NodeTag::T_AlterForeignServerStmt => 782,
        NodeTag::T_CreateUserMappingStmt => 783,
        NodeTag::T_AlterUserMappingStmt => 784,
        NodeTag::T_DropUserMappingStmt => 785,
        NodeTag::T_AlterTableSpaceOptionsStmt => 786,
        NodeTag::T_AlterTableMoveAllStmt => 787,
        NodeTag::T_SecLabelStmt => 788,
        NodeTag::T_CreateForeignTableStmt => 789,
        NodeTag::T_ImportForeignSchemaStmt => 790,
        NodeTag::T_CreateExtensionStmt => 791,
        NodeTag::T_AlterExtensionStmt => 792,
        NodeTag::T_AlterExtensionContentsStmt => 793,
        NodeTag::T_CreateEventTrigStmt => 794,
        NodeTag::T_AlterEventTrigStmt => 795,
        NodeTag::T_RefreshMatViewStmt => 796,
        NodeTag::T_ReplicaIdentityStmt => 797,
        NodeTag::T_AlterSystemStmt => 798,
        NodeTag::T_CreatePolicyStmt => 799,
        NodeTag::T_AlterPolicyStmt => 800,
        NodeTag::T_A_Expr => 900,
        NodeTag::T_ColumnRef => 901,
        NodeTag::T_ParamRef => 902,
        NodeTag::T_A_Const => 903,
        NodeTag::T_FuncCall => 904,
        NodeTag::T_A_Star => 905,
        NodeTag::T_A_Indices => 906,
        NodeTag::T_A_Indirection => 907,
        NodeTag::T_A_ArrayExpr => 908,
        NodeTag::T_ResTarget => 909,
        NodeTag::T_MultiAssignRef => 910,
        NodeTag::T_TypeCast => 911,
        NodeTag::T_CollateClause => 912,
        NodeTag::T_SortBy => 913,
        NodeTag::T_WindowDef => 914,
        NodeTag::T_RangeSubselect => 915,
        NodeTag::T_RangeFunction => 916,
        NodeTag::T_TypeName => 917,
        NodeTag::T_ColumnDef => 918,
        NodeTag::T_IndexElem => 919,
        NodeTag::T_Constraint => 920,
        NodeTag::T_DefElem => 921,
        NodeTag::T_RangeTblEntry => 922,
        NodeTag::T_RangeTblFunction => 923,
        NodeTag::T_WithCheckOption => 924,
        NodeTag::T_SortGroupClause => 925,
        NodeTag::T_WindowClause => 926,
        NodeTag::T_PrivGrantee => 927,
        NodeTag::T_FuncWithArgs => 928,
        NodeTag::T_AccessPriv => 929,
        NodeTag::T_CreateOpClassItem => 930,
        NodeTag::T_TableLikeClause => 931,
        NodeTag::T_FunctionParameter => 932,
        NodeTag::T_LockingClause => 933,
        NodeTag::T_RowMarkClause => 934,
        NodeTag::T_XmlSerialize => 935,
        NodeTag::T_WithClause => 936,
        NodeTag::T_CommonTableExpr => 937,
        NodeTag::T_IdentifySystemCmd => 938,
        NodeTag::T_BaseBackupCmd => 939,
        NodeTag::T_CreateReplicationSlotCmd => 940,
        NodeTag::T_DropReplicationSlotCmd => 941,
        NodeTag::T_StartReplicationCmd => 942,
        NodeTag::T_TimeLineHistoryCmd => 943,
        NodeTag::T_TriggerData => 950,
        NodeTag::T_EventTriggerData => 951,
        NodeTag::T_ReturnSetInfo => 952,
        NodeTag::T_WindowObjectData => 953,
        NodeTag::T_TIDBitmap => 954,
        NodeTag::T_InlineCodeBlock => 955,
        NodeTag::T_FdwRoutine => 956,
    }
}

/// Whether the server knows a tag by the number `v`. The numbers in use lie
/// in runs, one run for each family of nodes.
pub open spec fn is_tag_number(v: int) -> bool {
    ||| v == 0
    ||| 10 <= v <= 16
    ||| 100 <= v <= 137
    ||| 200 <= v <= 234
    ||| 300 <= v <= 345
    ||| 400 <= v <= 426
    ||| 500 <= v <= 530
    ||| 600 <= v <= 601
    ||| 650 <= v <= 658
    ||| 700 <= v <= 800
    ||| 900 <= v <= 943
    ||| 950 <= v <= 956
}

impl NodeTag {
    /// The number that the server knows the tag by.
    pub fn value(&self) -> (v: u32)
        ensures
            v == tag_number(*self),
    {
        match self {
            NodeTag::T_Invalid => 0,
            NodeTag::T_IndexInfo => 10,
            NodeTag::T_ExprContext => 11,
            NodeTag::T_ProjectionInfo => 12,
            NodeTag::T_JunkFilter => 13,
            NodeTag::T_ResultRelInfo => 14,
            NodeTag::T_EState => 15,
            NodeTag::T_TupleTableSlot => 16,
            NodeTag::T_Plan => 100,
            NodeTag::T_Result => 101,
            NodeTag::T_ModifyTable => 102,
            NodeTag::T_Append => 103,
            NodeTag::T_MergeAppend => 104,
            NodeTag::T_RecursiveUnion => 105,
            NodeTag::T_BitmapAnd => 106,
            NodeTag::T_BitmapOr => 107,
            NodeTag::T_Scan => 108,
            NodeTag::T_SeqScan => 109,
            NodeTag::T_IndexScan => 110,
            NodeTag::T_IndexOnlyScan => 111,
            NodeTag::T_BitmapIndexScan => 112,
            NodeTag::T_BitmapHeapScan => 113,
            NodeTag::T_TidScan => 114,
            NodeTag::T_SubqueryScan => 115,
            NodeTag::T_FunctionScan => 116,
            NodeTag::T_ValuesScan => 117,
            NodeTag::T_CteScan => 118,
            NodeTag::T_WorkTableScan => 119,
            NodeTag::T_ForeignScan => 120,
            NodeTag::T_Join => 121,
            NodeTag::T_NestLoop => 122,
            NodeTag::T_MergeJoin => 123,
            NodeTag::T_HashJoin => 124,
            NodeTag::T_Material => 125,
            NodeTag::T_Sort => 126,
            NodeTag::T_Group => 127,
            NodeTag::T_Agg => 128,
            NodeTag::T_WindowAgg => 129,
            NodeTag::T_Unique => 130,
            NodeTag::T_Hash => 131,
            NodeTag::T_SetOp => 132,
            NodeTag::T_LockRows => 133,
            NodeTag::T_Limit => 134,
            NodeTag::T_NestLoopParam => 135,
            NodeTag::T_PlanRowMark => 136,
            NodeTag::T_PlanInvalItem => 137,
            NodeTag::T_PlanState => 200,
            NodeTag::T_ResultState => 201,
            NodeTag::T_ModifyTableState => 202,
            NodeTag::T_AppendState => 203,
            NodeTag::T_MergeAppendState => 204,
            NodeTag::T_RecursiveUnionState => 205,
            NodeTag::T_BitmapAndState => 206,
            NodeTag::T_BitmapOrState => 207,
            NodeTag::T_ScanState => 208,
            NodeTag::T_SeqScanState => 209,
            NodeTag::T_IndexScanState => 210,
            NodeTag::T_IndexOnlyScanState => 211,
            NodeTag::T_BitmapIndexScanState => 212,
            NodeTag::T_BitmapHeapScanState => 213,
            NodeTag::T_TidScanState => 214,
            NodeTag::T_SubqueryScanState => 215,
            NodeTag::T_FunctionScanState => 216,
            NodeTag::T_ValuesScanState => 217,
            NodeTag::T_CteScanState => 218,
            NodeTag::T_WorkTableScanState => 219,
            NodeTag::T_ForeignScanState => 220,
            NodeTag::T_JoinState => 221,
            NodeTag::T_NestLoopState => 222,
            NodeTag::T_MergeJoinState => 223,
            NodeTag::T_HashJoinState => 224,
            NodeTag::T_MaterialState => 225,
            NodeTag::T_SortState => 226,
            NodeTag::T_GroupState => 227,
            NodeTag::T_AggState => 228,
            NodeTag::T_WindowAggState => 229,
            NodeTag::T_UniqueState => 230,
            NodeTag::T_HashState => 231,
            NodeTag::T_SetOpState => 232,
            NodeTag::T_LockRowsState => 233,
            NodeTag::T_LimitState => 234,
            NodeTag::T_Alias => 300,
            NodeTag::T_RangeVar => 301,
            NodeTag::T_Expr => 302,
            NodeTag::T_Var => 303,
            NodeTag::T_Const => 304,
            NodeTag::T_Param => 305,
            NodeTag::T_Aggref => 306,
            NodeTag::T_WindowFunc => 307,
            NodeTag::T_ArrayRef => 308,
            NodeTag::T_FuncExpr => 309,
            NodeTag::T_NamedArgExpr => 310,
            NodeTag::T_OpExpr => 311,
            NodeTag::T_DistinctExpr => 312,
            NodeTag::T_NullIfExpr => 313,
            NodeTag::T_ScalarArrayOpExpr => 314,
            NodeTag::T_BoolExpr => 315,
            NodeTag::T_SubLink => 316,
            NodeTag::T_SubPlan => 317,
            NodeTag::T_AlternativeSubPlan => 318,
            NodeTag::T_FieldSelect => 319,
            NodeTag::T_FieldStore => 320,
            NodeTag::T_RelabelType => 321,
            NodeTag::T_CoerceViaIO => 322,
            NodeTag::T_ArrayCoerceExpr => 323,
            NodeTag::T_ConvertRowtypeExpr => 324,
            NodeTag::T_CollateExpr => 325,
            NodeTag::T_CaseExpr => 326,
            NodeTag::T_CaseWhen => 327,
            NodeTag::T_CaseTestExpr => 328,
            NodeTag::T_ArrayExpr => 329,
            NodeTag::T_RowExpr => 330,
            NodeTag::T_RowCompareExpr => 331,
            NodeTag::T_CoalesceExpr => 332,
            NodeTag::T_MinMaxExpr => 333,
            NodeTag::T_XmlExpr => 334,
            NodeTag::T_NullTest => 335,
            NodeTag::T_BooleanTest => 336,
            NodeTag::T_CoerceToDomain => 337,
            NodeTag::T_CoerceToDomainValue => 338,
            NodeTag::T_SetToDefault => 339,
            NodeTag::T_CurrentOfExpr => 340,
            NodeTag::T_TargetEntry => 341,
            NodeTag::T_RangeTblRef => 342,
            NodeTag::T_JoinExpr => 343,
            NodeTag::T_FromExpr => 344,
            NodeTag::T_IntoClause => 345,
            NodeTag::T_ExprState => 400,
            NodeTag::T_GenericExprState => 401,
            NodeTag::T_WholeRowVarExprState => 402,
            NodeTag::T_AggrefExprState => 403,
            NodeTag::T_WindowFuncExprState => 404,
            NodeTag::T_ArrayRefExprState => 405,
            NodeTag::T_FuncExprState => 406,
            NodeTag::T_ScalarArrayOpExprState => 407,
            NodeTag::T_BoolExprState => 408,
            NodeTag::T_SubPlanState => 409,
            NodeTag::T_AlternativeSubPlanState => 410,
            NodeTag::T_FieldSelectState => 411,
            NodeTag::T_FieldStoreState => 412,
            NodeTag::T_CoerceViaIOState => 413,
            NodeTag::T_ArrayCoerceExprState => 414,
            NodeTag::T_ConvertRowtypeExprState => 415,
            NodeTag::T_CaseExprState => 416,
            NodeTag::T_CaseWhenState => 417,
            NodeTag::T_ArrayExprState => 418,
            NodeTag::T_RowExprState => 419,
            NodeTag::T_RowCompareExprState => 420,
            NodeTag::T_CoalesceExprState => 421,
            NodeTag::T_MinMaxExprState => 422,
            NodeTag::T_XmlExprState => 423,
            NodeTag::T_NullTestState => 424,
            NodeTag::T_CoerceToDomainState => 425,
            NodeTag::T_DomainConstraintState => 426,
            NodeTag::T_PlannerInfo => 500,
            NodeTag::T_PlannerGlobal => 501,
            NodeTag::T_RelOptInfo => 502,
            NodeTag::T_IndexOptInfo => 503,
            NodeTag::T_ParamPathInfo => 504,
            NodeTag::T_Path => 505,
            NodeTag::T_IndexPath => 506,
            NodeTag::T_BitmapHeapPath => 507,
            NodeTag::T_BitmapAndPath => 508,
            NodeTag::T_BitmapOrPath => 509,
            NodeTag::T_NestPath => 510,
            NodeTag::T_MergePath => 511,
            NodeTag::T_HashPath => 512,
            NodeTag::T_TidPath => 513,
            NodeTag::T_ForeignPath => 514,
            NodeTag::T_AppendPath => 515,
            NodeTag::T_MergeAppendPath => 516,
            NodeTag::T_ResultPath => 517,
            NodeTag::T_MaterialPath => 518,
            NodeTag::T_UniquePath => 519,
            NodeTag::T_EquivalenceClass => 520,
            NodeTag::T_EquivalenceMember => 521,
            NodeTag::T_PathKey => 522,
            NodeTag::T_RestrictInfo => 523,
            NodeTag::T_PlaceHolderVar => 524,
            NodeTag::T_SpecialJoinInfo => 525,
            NodeTag::T_LateralJoinInfo => 526,
            NodeTag::T_AppendRelInfo => 527,
            NodeTag::T_PlaceHolderInfo => 528,
            NodeTag::T_MinMaxAggInfo => 529,
            NodeTag::T_PlannerParamItem => 530,
            NodeTag::T_MemoryContext => 600,
            NodeTag::T_AllocSetContext => 601,
            NodeTag::T_Value => 650,
            NodeTag::T_Integer => 651,
            NodeTag::T_Float => 652,
            NodeTag::T_String => 653,
            NodeTag::T_BitString => 654,
            NodeTag::T_Null => 655,
            NodeTag::T_List => 656,
            NodeTag::T_IntList => 657,
            NodeTag::T_OidList => 658,
            NodeTag::T_Query => 700,
            NodeTag::T_PlannedStmt => 701,
            NodeTag::T_InsertStmt => 702,
            NodeTag::T_DeleteStmt => 703,
            NodeTag::T_UpdateStmt => 704,
            NodeTag::T_SelectStmt => 705,
            NodeTag::T_AlterTableStmt => 706,
            NodeTag::T_AlterTableCmd => 707,
            NodeTag::T_AlterDomainStmt => 708,
            NodeTag::T_SetOperationStmt => 709,
            NodeTag::T_GrantStmt => 710,
            NodeTag::T_GrantRoleStmt => 711,
            NodeTag::T_AlterDefaultPrivilegesStmt => 712,
            NodeTag::T_ClosePortalStmt => 713,
            NodeTag::T_ClusterStmt => 714,
            NodeTag::T_CopyStmt => 715,
            NodeTag::T_CreateStmt => 716,
            NodeTag::T_DefineStmt => 717,
            NodeTag::T_DropStmt => 718,
            NodeTag::T_TruncateStmt => 719,
            NodeTag::T_CommentStmt => 720,
            NodeTag::T_FetchStmt => 721,
            NodeTag::T_IndexStmt => 722,
            NodeTag::T_CreateFunctionStmt => 723,
            NodeTag::T_AlterFunctionStmt => 724,
            NodeTag::T_DoStmt => 725,
            NodeTag::T_RenameStmt => 726,
            NodeTag::T_RuleStmt => 727,
            NodeTag::T_NotifyStmt => 728,
            NodeTag::T_ListenStmt => 729,
            NodeTag::T_UnlistenStmt => 730,
            NodeTag::T_TransactionStmt => 731,
            NodeTag::T_ViewStmt => 732,
            NodeTag::T_LoadStmt => 733,
            NodeTag::T_CreateDomainStmt => 734,
            NodeTag::T_CreatedbStmt => 735,
            NodeTag::T_DropdbStmt => 736,
            NodeTag::T_VacuumStmt => 737,
            NodeTag::T_ExplainStmt => 738,
            NodeTag::T_CreateTableAsStmt => 739,
            NodeTag::T_CreateSeqStmt => 740,
            NodeTag::T_AlterSeqStmt => 741,
            NodeTag::T_VariableSetStmt => 742,
            NodeTag::T_VariableShowStmt => 743,
            NodeTag::T_DiscardStmt => 744,
            NodeTag::T_CreateTrigStmt => 745,
            NodeTag::T_CreatePLangStmt => 746,
            NodeTag::T_CreateRoleStmt => 747,
            NodeTag::T_AlterRoleStmt => 748,
            NodeTag::T_DropRoleStmt => 749,
            NodeTag::T_LockStmt => 750,
            NodeTag::T_ConstraintsSetStmt => 751,
            NodeTag::T_ReindexStmt => 752,
            NodeTag::T_CheckPointStmt => 753,
            NodeTag::T_CreateSchemaStmt => 754,
            NodeTag::T_AlterDatabaseStmt => 755,
            NodeTag::T_AlterDatabaseSetStmt => 756,
            NodeTag::T_AlterRoleSetStmt => 757,
            NodeTag::T_CreateConversionStmt => 758,
            NodeTag::T_CreateCastStmt => 759,
            NodeTag::T_CreateOpClassStmt => 760,
            NodeTag::T_CreateOpFamilyStmt => 761,
            NodeTag::T_AlterOpFamilyStmt => 762,
            NodeTag::T_PrepareStmt => 763,
            NodeTag::T_ExecuteStmt => 764,
            NodeTag::T_DeallocateStmt => 765,
            NodeTag::T_DeclareCursorStmt => 766,
            NodeTag::T_CreateTableSpaceStmt => 767,
            NodeTag::T_DropTableSpaceStmt => 768,
            NodeTag::T_AlterObjectSchemaStmt => 769,
            NodeTag::T_AlterOwnerStmt => 770,
            NodeTag::T_DropOwnedStmt => 771,
            NodeTag::T_ReassignOwnedStmt => 772,
            NodeTag::T_CompositeTypeStmt => 773,
            NodeTag::T_CreateEnumStmt => 774,
            NodeTag::T_CreateRangeStmt => 775,
            NodeTag::T_AlterEnumStmt => 776,
            NodeTag::T_AlterTSDictionaryStmt => 777,
            NodeTag::T_AlterTSConfigurationStmt => 778,
            NodeTag::T_CreateFdwStmt => 779,
            NodeTag::T_AlterFdwStmt => 780,
            NodeTag::T_CreateForeignServerStmt => 781,
            NodeTag::T_AlterForeignServerStmt => 782,
            NodeTag::T_CreateUserMappingStmt => 783,
            NodeTag::T_AlterUserMappingStmt => 784,
            NodeTag::T_DropUserMappingStmt => 785,
            NodeTag::T_AlterTableSpaceOptionsStmt => 786,
            NodeTag::T_AlterTableMoveAllStmt => 787,
            NodeTag::T_SecLabelStmt => 788,
            NodeTag::T_CreateForeignTableStmt => 789,
            NodeTag::T_ImportForeignSchemaStmt => 790,
            NodeTag::T_CreateExtensionStmt => 791,
            NodeTag::T_AlterExtensionStmt => 792,
            NodeTag::T_AlterExtensionContentsStmt => 793,
            NodeTag::T_CreateEventTrigStmt => 794,
            NodeTag::T_AlterEventTrigStmt => 795,
            NodeTag::T_RefreshMatViewStmt => 796,
            NodeTag::T_ReplicaIdentityStmt => 797,
            NodeTag::T_AlterSystemStmt => 798,
            NodeTag::T_CreatePolicyStmt => 799,
            NodeTag::T_AlterPolicyStmt => 800,
            NodeTag::T_A_Expr => 900,
            NodeTag::T_ColumnRef => 901,
            NodeTag::T_ParamRef => 902,
            NodeTag::T_A_Const => 903,
            NodeTag::T_FuncCall => 904,
            NodeTag::T_A_Star => 905,
            NodeTag::T_A_Indices => 906,
            NodeTag::T_A_Indirection => 907,
            NodeTag::T_A_ArrayExpr => 908,
            NodeTag::T_ResTarget => 909,
            NodeTag::T_MultiAssignRef => 910,
            NodeTag::T_TypeCast => 911,
            NodeTag::T_CollateClause => 912,
            NodeTag::T_SortBy => 913,
            NodeTag::T_WindowDef => 914,
            NodeTag::T_RangeSubselect => 915,
            NodeTag::T_RangeFunction => 916,
            NodeTag::T_TypeName => 917,
            NodeTag::T_ColumnDef => 918,
            NodeTag::T_IndexElem => 919,
            NodeTag::T_Constraint => 920,
            NodeTag::T_DefElem => 921,
            NodeTag::T_RangeTblEntry => 922,
            NodeTag::T_RangeTblFunction => 923,
            NodeTag::T_WithCheckOption => 924,
            NodeTag::T_SortGroupClause => 925,
            NodeTag::T_WindowClause => 926,
            NodeTag::T_PrivGrantee => 927,
            NodeTag::T_FuncWithArgs => 928,
            NodeTag::T_AccessPriv => 929,
            NodeTag::T_CreateOpClassItem => 930,
            NodeTag::T_TableLikeClause => 931,
            NodeTag::T_FunctionParameter => 932,
            NodeTag::T_LockingClause => 933,
            NodeTag::T_RowMarkClause => 934,
            NodeTag::T_XmlSerialize => 935,
            NodeTag::T_WithClause => 936,
            NodeTag::T_CommonTableExpr => 937,
            NodeTag::T_IdentifySystemCmd => 938,
            NodeTag::T_BaseBackupCmd => 939,
            NodeTag::T_CreateReplicationSlotCmd => 940,
            NodeTag::T_DropReplicationSlotCmd => 941,
            NodeTag::T_StartReplicationCmd => 942,
            NodeTag::T_TimeLineHistoryCmd => 943,
            NodeTag::T_TriggerData => 950,
            NodeTag::T_EventTriggerData => 951,
            NodeTag::T_ReturnSetInfo => 952,
            NodeTag::T_WindowObjectData => 953,
            NodeTag::T_TIDBitmap => 954,
            NodeTag::T_InlineCodeBlock => 955,
            NodeTag::T_FdwRoutine => 956,
        }
    }

    /// The tag that the server knows by the number `v`, if there is one.
    pub fn from_value(v: u32) -> (r: Option<NodeTag>)
        ensures
            r is Some <==> is_tag_number(v as int),
            r is Some ==> tag_number(r->0) == v,
    {
        if v == 0 {
            Some(NodeTag::T_Invalid)
        } else if 10 <= v && v <= 16 {
            Some(executor_tag(v))
        } else if 100 <= v && v <= 137 {
            Some(plan_tag(v))
        } else if 200 <= v && v <= 234 {
            Some(plan_state_tag(v))
        } else if 300 <= v && v <= 345 {
            Some(primitive_tag(v))
        } else if 400 <= v && v <= 426 {
            Some(expr_state_tag(v))
        } else if 500 <= v && v <= 530 {
            Some(planner_tag(v))
        } else if 600 <= v && v <= 601 {
            Some(memory_tag(v))
        } else if 650 <= v && v <= 658 {
            Some(value_tag(v))
        } else if 700 <= v && v <= 800 {
            Some(statement_tag(v))
        } else if 900 <= v && v <= 943 {
            Some(parse_tag(v))
        } else if 950 <= v && v <= 956 {
            Some(interface_tag(v))
        } else {
            None
        }
    }
}

/// The tag with the number `v`, among the executor nodes.
fn executor_tag(v: u32) -> (tag: NodeTag)
    requires
        10 <= v <= 16,
    ensures
        tag_number(tag) == v,
{
    match v {
        10 => NodeTag::T_IndexInfo,
        11 => NodeTag::T_ExprContext,
        12 => NodeTag::T_ProjectionInfo,
        13 => NodeTag::T_JunkFilter,
        14 => NodeTag::T_ResultRelInfo,
        15 => NodeTag::T_EState,
        _ => NodeTag::T_TupleTableSlot,
    }
}

/// The tag with the number `v`, among the plan nodes.
fn plan_tag(v: u32) -> (tag: NodeTag)
    requires
        100 <= v <= 137,
    ensures
        tag_number(tag) == v,
{
    match v {
        100 => NodeTag::T_Plan,
        101 => NodeTag::T_Result,
        102 => NodeTag::T_ModifyTable,
        103 => NodeTag::T_Append,
        104 => NodeTag::T_MergeAppend,
        105 => NodeTag::T_RecursiveUnion,
        106 => NodeTag::T_BitmapAnd,
        107 => NodeTag::T_BitmapOr,
        108 => NodeTag::T_Scan,
        109 => NodeTag::T_SeqScan,
        110 => NodeTag::T_IndexScan,
        111 => NodeTag::T_IndexOnlyScan,
        112 => NodeTag::T_BitmapIndexScan,
        113 => NodeTag::T_BitmapHeapScan,
        114 => NodeTag::T_TidScan,
        115 => NodeTag::T_SubqueryScan,
        116 => NodeTag::T_FunctionScan,
        117 => NodeTag::T_ValuesScan,
        118 => NodeTag::T_CteScan,
        119 => NodeTag::T_WorkTableScan,
        120 => NodeTag::T_ForeignScan,
        121 => NodeTag::T_Join,
        122 => NodeTag::T_NestLoop,
        123 => NodeTag::T_MergeJoin,
        124 => NodeTag::T_HashJoin,
        125 => NodeTag::T_Material,
        126 => NodeTag::T_Sort,
        127 => NodeTag::T_Group,
        128 => NodeTag::T_Agg,
        129 => NodeTag::T_WindowAgg,
        130 => NodeTag::T_Unique,
        131 => NodeTag::T_Hash,
        132 => NodeTag::T_SetOp,
        133 => NodeTag::T_LockRows,
        134 => NodeTag::T_Limit,
        135 => NodeTag::T_NestLoopParam,
        136 => NodeTag::T_PlanRowMark,
        _ => NodeTag::T_PlanInvalItem,
    }
}

/// The tag with the number `v`, among the plan state nodes.
fn plan_state_tag(v: u32) -> (tag: NodeTag)
    requires
        200 <= v <= 234,
    ensures
        tag_number(tag) == v,
{
    match v {
        200 => NodeTag::T_PlanState,
        201 => NodeTag::T_ResultState,
        202 => NodeTag::T_ModifyTableState,
        203 => NodeTag::T_AppendState,
        204 => NodeTag::T_MergeAppendState,
        205 => NodeTag::T_RecursiveUnionState,
        206 => NodeTag::T_BitmapAndState,
        207 => NodeTag::T_BitmapOrState,
        208 => NodeTag::T_ScanState,
        209 => NodeTag::T_SeqScanState,
        210 => NodeTag::T_IndexScanState,
        211 => NodeTag::T_IndexOnlyScanState,
        212 => NodeTag::T_BitmapIndexScanState,
        213 => NodeTag::T_BitmapHeapScanState,
        214 => NodeTag::T_TidScanState,
        215 => NodeTag::T_SubqueryScanState,
        216 => NodeTag::T_FunctionScanState,
        217 => NodeTag::T_ValuesScanState,
        218 => NodeTag::T_CteScanState,
        219 => NodeTag::T_WorkTableScanState,
        220 => NodeTag::T_ForeignScanState,
        221 => NodeTag::T_JoinState,
        222 => NodeTag::T_NestLoopState,
        223 => NodeTag::T_MergeJoinState,
        224 => NodeTag::T_HashJoinState,
        225 => NodeTag::T_MaterialState,
        226 => NodeTag::T_SortState,
        227 => NodeTag::T_GroupState,
        228 => NodeTag::T_AggState,
        229 => NodeTag::T_WindowAggState,
        230 => NodeTag::T_UniqueState,
        231 => NodeTag::T_HashState,
        232 => NodeTag::T_SetOpState,
        233 => NodeTag::T_LockRowsState,
        _ => NodeTag::T_LimitState,
    }
}

/// The tag with the number `v`, among the primitive nodes.
fn primitive_tag(v: u32) -> (tag: NodeTag)
    requires
        300 <= v <= 345,
    ensures
        tag_number(tag) == v,
{
    match v {
        300 => NodeTag::T_Alias,
        301 => NodeTag::T_RangeVar,
        302 => NodeTag::T_Expr,
        303 => NodeTag::T_Var,
        304 => NodeTag::T_Const,
        305 => NodeTag::T_Param,
        306 => NodeTag::T_Aggref,
        307 => NodeTag::T_WindowFunc,
        308 => NodeTag::T_ArrayRef,
        309 => NodeTag::T_FuncExpr,
        310 => NodeTag::T_NamedArgExpr,
        311 => NodeTag::T_OpExpr,
        312 => NodeTag::T_DistinctExpr,
        313 => NodeTag::T_NullIfExpr,
        314 => NodeTag::T_ScalarArrayOpExpr,
        315 => NodeTag::T_BoolExpr,
        316 => NodeTag::T_SubLink,
        317 => NodeTag::T_SubPlan,
        318 => NodeTag::T_AlternativeSubPlan,
        319 => NodeTag::T_FieldSelect,
        320 => NodeTag::T_FieldStore,
        321 => NodeTag::T_RelabelType,
        322 => NodeTag::T_CoerceViaIO,
        323 => NodeTag::T_ArrayCoerceExpr,
        324 => NodeTag::T_ConvertRowtypeExpr,
        325 => NodeTag::T_CollateExpr,
        326 => NodeTag::T_CaseExpr,
        327 => NodeTag::T_CaseWhen,
        328 => NodeTag::T_CaseTestExpr,
        329 => NodeTag::T_ArrayExpr,
        330 => NodeTag::T_RowExpr,
        331 => NodeTag::T_RowCompareExpr,
        332 => NodeTag::T_CoalesceExpr,
        333 => NodeTag::T_MinMaxExpr,
        334 => NodeTag::T_XmlExpr,
        335 => NodeTag::T_NullTest,
        336 => NodeTag::T_BooleanTest,
        337 => NodeTag::T_CoerceToDomain,
        338 => NodeTag::T_CoerceToDomainValue,
        339 => NodeTag::T_SetToDefault,
        340 => NodeTag::T_CurrentOfExpr,
        341 => NodeTag::T_TargetEntry,
        342 => NodeTag::T_RangeTblRef,
        343 => NodeTag::T_JoinExpr,
        344 => NodeTag::T_FromExpr,
        _ => NodeTag::T_IntoClause,
    }
}

/// The tag with the number `v`, among the expression state nodes.
fn expr_state_tag(v: u32) -> (tag: NodeTag)
    requires
        400 <= v <= 426,
    ensures
        tag_number(tag) == v,
{
    match v {
        400 => NodeTag::T_ExprState,
        401 => NodeTag::T_GenericExprState,
        402 => NodeTag::T_WholeRowVarExprState,
        403 => NodeTag::T_AggrefExprState,
        404 => NodeTag::T_WindowFuncExprState,
        405 => NodeTag::T_ArrayRefExprState,
        406 => NodeTag::T_FuncExprState,
        407 => NodeTag::T_ScalarArrayOpExprState,
        408 => NodeTag::T_BoolExprState,
        409 => NodeTag::T_SubPlanState,
        410 => NodeTag::T_AlternativeSubPlanState,
        411 => NodeTag::T_FieldSelectState,
        412 => NodeTag::T_FieldStoreState,
        413 => NodeTag::T_CoerceViaIOState,
        414 => NodeTag::T_ArrayCoerceExprState,
        415 => NodeTag::T_ConvertRowtypeExprState,
        416 => NodeTag::T_CaseExprState,
        417 => NodeTag::T_CaseWhenState,
        418 => NodeTag::T_ArrayExprState,
        419 => NodeTag::T_RowExprState,
        420 => NodeTag::T_RowCompareExprState,
        421 => NodeTag::T_CoalesceExprState,
        422 => NodeTag::T_MinMaxExprState,
        423 => NodeTag::T_XmlExprState,
        424 => NodeTag::T_NullTestState,
        425 => NodeTag::T_CoerceToDomainState,
        _ => NodeTag::T_DomainConstraintState,
    }
}

/// The tag with the number `v`, among the planner nodes.
fn planner_tag(v: u32) -> (tag: NodeTag)
    requires
        500 <= v <= 530,
    ensures
        tag_number(tag) == v,
{
    match v {
        500 => NodeTag::T_PlannerInfo,
        501 => NodeTag::T_PlannerGlobal,
        502 => NodeTag::T_RelOptInfo,
        503 => NodeTag::T_IndexOptInfo,
        504 => NodeTag::T_ParamPathInfo,
        505 => NodeTag::T_Path,
        506 => NodeTag::T_IndexPath,
        507 => NodeTag::T_BitmapHeapPath,
        508 => NodeTag::T_BitmapAndPath,
        509 => NodeTag::T_BitmapOrPath,
        510 => NodeTag::T_NestPath,
        511 => NodeTag::T_MergePath,
        512 => NodeTag::T_HashPath,
        513 => NodeTag::T_TidPath,
        514 => NodeTag::T_ForeignPath,
        515 => NodeTag::T_AppendPath,
        516 => NodeTag::T_MergeAppendPath,
        517 => NodeTag::T_ResultPath,
        518 => NodeTag::T_MaterialPath,
        519 => NodeTag::T_UniquePath,
        520 => NodeTag::T_EquivalenceClass,
        521 => NodeTag::T_EquivalenceMember,
        522 => NodeTag::T_PathKey,
        523 => NodeTag::T_RestrictInfo,
        524 => NodeTag::T_PlaceHolderVar,
        525 => NodeTag::T_SpecialJoinInfo,
        526 => NodeTag::T_LateralJoinInfo,
        527 => NodeTag::T_AppendRelInfo,
        528 => NodeTag::T_PlaceHolderInfo,
        529 => NodeTag::T_MinMaxAggInfo,
        _ => NodeTag::T_PlannerParamItem,
    }
}

/// The tag with the number `v`, among the memory nodes.
fn memory_tag(v: u32) -> (tag: NodeTag)
    requires
        600 <= v <= 601,
    ensures
        tag_number(tag) == v,
{
    match v {
        600 => NodeTag::T_MemoryContext,
        _ => NodeTag::T_AllocSetContext,
    }
}

/// The tag with the number `v`, among the value and list nodes.
fn value_tag(v: u32) -> (tag: NodeTag)
    requires
        650 <= v <= 658,
    ensures
        tag_number(tag) == v,
{
    match v {
        650 => NodeTag::T_Value,
        651 => NodeTag::T_Integer,
        652 => NodeTag::T_Float,
        653 => NodeTag::T_String,
        654 => NodeTag::T_BitString,
        655 => NodeTag::T_Null,
        656 => NodeTag::T_List,
        657 => NodeTag::T_IntList,
        _ => NodeTag::T_OidList,
    }
}

/// The tag with the number `v`, among the statement nodes.
#[verifier::rlimit(60)]
fn statement_tag(v: u32) -> (tag: NodeTag)
    requires
        700 <= v <= 800,
    ensures
        tag_number(tag) == v,
{
    match v {
        700 => NodeTag::T_Query,
        701 => NodeTag::T_PlannedStmt,
        702 => NodeTag::T_InsertStmt,
        703 => NodeTag::T_DeleteStmt,
        704 => NodeTag::T_UpdateStmt,
        705 => NodeTag::T_SelectStmt,
        706 => NodeTag::T_AlterTableStmt,
        707 => NodeTag::T_AlterTableCmd,
        708 => NodeTag::T_AlterDomainStmt,
        709 => NodeTag::T_SetOperationStmt,
        710 => NodeTag::T_GrantStmt,
        711 => NodeTag::T_GrantRoleStmt,
        712 => NodeTag::T_AlterDefaultPrivilegesStmt,
        713 => NodeTag::T_ClosePortalStmt,
        714 => NodeTag::T_ClusterStmt,
        715 => NodeTag::T_CopyStmt,
        716 => NodeTag::T_CreateStmt,
        717 => NodeTag::T_DefineStmt,
        718 => NodeTag::T_DropStmt,
        719 => NodeTag::T_TruncateStmt,
        720 => NodeTag::T_CommentStmt,
        721 => NodeTag::T_FetchStmt,
        722 => NodeTag::T_IndexStmt,
        723 => NodeTag::T_CreateFunctionStmt,
        724 => NodeTag::T_AlterFunctionStmt,
        725 => NodeTag::T_DoStmt,
        726 => NodeTag::T_RenameStmt,
        727 => NodeTag::T_RuleStmt,
        728 => NodeTag::T_NotifyStmt,
        729 => NodeTag::T_ListenStmt,
        730 => NodeTag::T_UnlistenStmt,
        731 => NodeTag::T_TransactionStmt,
        732 => NodeTag::T_ViewStmt,
        733 => NodeTag::T_LoadStmt,
        734 => NodeTag::T_CreateDomainStmt,
        735 => NodeTag::T_CreatedbStmt,
        736 => NodeTag::T_DropdbStmt,
        737 => NodeTag::T_VacuumStmt,
        738 => NodeTag::T_ExplainStmt,
        739 => NodeTag::T_CreateTableAsStmt,
        740 => NodeTag::T_CreateSeqStmt,
        741 => NodeTag::T_AlterSeqStmt,
        742 => NodeTag::T_VariableSetStmt,
        743 => NodeTag::T_VariableShowStmt,
        744 => NodeTag::T_DiscardStmt,
        745 => NodeTag::T_CreateTrigStmt,
        746 => NodeTag::T_CreatePLangStmt,
        747 => NodeTag::T_CreateRoleStmt,
        748 => NodeTag::T_AlterRoleStmt,
        749 => NodeTag::T_DropRoleStmt,
        750 => NodeTag::T_LockStmt,
        751 => NodeTag::T_ConstraintsSetStmt,
        752 => NodeTag::T_ReindexStmt,
        753 => NodeTag::T_CheckPointStmt,
        754 => NodeTag::T_CreateSchemaStmt,
        755 => NodeTag::T_AlterDatabaseStmt,
        756 => NodeTag::T_AlterDatabaseSetStmt,
        757 => NodeTag::T_AlterRoleSetStmt,
        758 => NodeTag::T_CreateConversionStmt,
        759 => NodeTag::T_CreateCastStmt,
        760 => NodeTag::T_CreateOpClassStmt,
        761 => NodeTag::T_CreateOpFamilyStmt,
        762 => NodeTag::T_AlterOpFamilyStmt,
        763 => NodeTag::T_PrepareStmt,
        764 => NodeTag::T_ExecuteStmt,
        765 => NodeTag::T_DeallocateStmt,
        766 => NodeTag::T_DeclareCursorStmt,
        767 => NodeTag::T_CreateTableSpaceStmt,
        768 => NodeTag::T_DropTableSpaceStmt,
        769 => NodeTag::T_AlterObjectSchemaStmt,
        770 => NodeTag::T_AlterOwnerStmt,
        771 => NodeTag::T_DropOwnedStmt,
        772 => NodeTag::T_ReassignOwnedStmt,
        773 => NodeTag::T_CompositeTypeStmt,
        774 => NodeTag::T_CreateEnumStmt,
        775 => NodeTag::T_CreateRangeStmt,
        776 => NodeTag::T_AlterEnumStmt,
        777 => NodeTag::T_AlterTSDictionaryStmt,
        778 => NodeTag::T_AlterTSConfigurationStmt,
        779 => NodeTag::T_CreateFdwStmt,
        780 => NodeTag::T_AlterFdwStmt,
        781 => NodeTag::T_CreateForeignServerStmt,
        782 => NodeTag::T_AlterForeignServerStmt,
        783 => NodeTag::T_CreateUserMappingStmt,
        784 => NodeTag::T_AlterUserMappingStmt,
        785 => NodeTag::T_DropUserMappingStmt,
        786 => NodeTag::T_AlterTableSpaceOptionsStmt,
        787 => NodeTag::T_AlterTableMoveAllStmt,
        788 => NodeTag::T_SecLabelStmt,
        789 => NodeTag::T_CreateForeignTableStmt,
        790 => NodeTag::T_ImportForeignSchemaStmt,
        791 => NodeTag::T_CreateExtensionStmt,
        792 => NodeTag::T_AlterExtensionStmt,
        793 => NodeTag::T_AlterExtensionContentsStmt,
        794 => NodeTag::T_CreateEventTrigStmt,
        795 => NodeTag::T_AlterEventTrigStmt,
        796 => NodeTag::T_RefreshMatViewStmt,
        797 => NodeTag::T_ReplicaIdentityStmt,
        798 => NodeTag::T_AlterSystemStmt,
        799 => NodeTag::T_CreatePolicyStmt,
        _ => NodeTag::T_AlterPolicyStmt,
    }
}

/// The tag with the number `v`, among the parse tree nodes.
fn parse_tag(v: u32) -> (tag: NodeTag)
    requires
        900 <= v <= 943,
    ensures
        tag_number(tag) == v,
{
    match v {
        900 => NodeTag::T_A_Expr,
        901 => NodeTag::T_ColumnRef,
        902 => NodeTag::T_ParamRef,
        903 => NodeTag::T_A_Const,
        904 => NodeTag::T_FuncCall,
        905 => NodeTag::T_A_Star,
        906 => NodeTag::T_A_Indices,
        907 => NodeTag::T_A_Indirection,
        908 => NodeTag::T_A_ArrayExpr,
        909 => NodeTag::T_ResTarget,
        910 => NodeTag::T_MultiAssignRef,
        911 => NodeTag::T_TypeCast,
        912 => NodeTag::T_CollateClause,
        913 => NodeTag::T_SortBy,
        914 => NodeTag::T_WindowDef,
        915 => NodeTag::T_RangeSubselect,
        916 => NodeTag::T_RangeFunction,
        917 => NodeTag::T_TypeName,
        918 => NodeTag::T_ColumnDef,
        919 => NodeTag::T_IndexElem,
        920 => NodeTag::T_Constraint,
        921 => NodeTag::T_DefElem,
        922 => NodeTag::T_RangeTblEntry,
        923 => NodeTag::T_RangeTblFunction,
        924 => NodeTag::T_WithCheckOption,
        925 => NodeTag::T_SortGroupClause,
        926 => NodeTag::T_WindowClause,
        927 => NodeTag::T_PrivGrantee,
        928 => NodeTag::T_FuncWithArgs,
        929 => NodeTag::T_AccessPriv,
        930 => NodeTag::T_CreateOpClassItem,
        931 => NodeTag::T_TableLikeClause,
        932 => NodeTag::T_FunctionParameter,
        933 => NodeTag::T_LockingClause,
        934 => NodeTag::T_RowMarkClause,
        935 => NodeTag::T_XmlSerialize,
        936 => NodeTag::T_WithClause,
        937 => NodeTag::T_CommonTableExpr,
        938 => NodeTag::T_IdentifySystemCmd,
        939 => NodeTag::T_BaseBackupCmd,
        940 => NodeTag::T_CreateReplicationSlotCmd,
        941 => NodeTag::T_DropReplicationSlotCmd,
        942 => NodeTag::T_StartReplicationCmd,
        _ => NodeTag::T_TimeLineHistoryCmd,
    }
}

/// The tag with the number `v`, among the nodes that are passed to called functions.
fn interface_tag(v: u32) -> (tag: NodeTag)
    requires
        950 <= v <= 956,
    ensures
        tag_number(tag) == v,
{
    match v {
        950 => NodeTag::T_TriggerData,
        951 => NodeTag::T_EventTriggerData,
        952 => NodeTag::T_ReturnSetInfo,
        953 => NodeTag::T_WindowObjectData,
        954 => NodeTag::T_TIDBitmap,
        955 => NodeTag::T_InlineCodeBlock,
        _ => NodeTag::T_FdwRoutine,
    }
}

/// Every tag has a number that is in use.
pub proof fn lemma_tag_number_in_use(tag: NodeTag)
    ensures
        is_tag_number(tag_number(tag)),
{
}

/// No two tags share a number: a tag is found again by its number.
pub proof fn lemma_tag_number_injective(a: NodeTag, b: NodeTag)
    requires
        tag_number(a) == tag_number(b),
    ensures
        a == b,
{
}

/// The head of every node: its tag.
#[derive(Clone, Copy, Debug, PartialEq, Eq, Structural)]
pub struct Node {
    pub ty: NodeTag,
}

} // verus!
