use perp_router::phoenix::instruction::PhoenixInstruction;

#[test]
fn test_instruction_serialization() {
    for i in 0..=108 {
        let instruction = match PhoenixInstruction::try_from_tag(i) {
            Some(j) => j,
            None => {
                assert!(i < 100);
                // This needs to be changed if new instructions are added
                assert!(i > 17);
                continue;
            }
        };
        assert_eq!(instruction.tag(), i);
    }
}
