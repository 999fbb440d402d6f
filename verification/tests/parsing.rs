use jenkinsfile::Jenkinsfile;

#[test]
pub fn should_parse_hello_world() {
    let code = r#"pipeline {
    agent { docker 'maven:3.3.3' }
    stages {
        stage('build') {
            steps {
                sh 'mvn --version'
            }
        }
    }
}
        "#;
    let jenkinsfile = Jenkinsfile::from_str(code).unwrap();
    assert_eq!(1, jenkinsfile.stages.len());
    assert_eq!("build", jenkinsfile.stages[0].name);
    println!("{:?}", jenkinsfile.stages[0].steps);
    assert_eq!(1, jenkinsfile.stages[0].steps.len());
}

#[test]
pub fn should_parse_echo() {
    let code = r#"pipeline {
    stages {
        stage('build') {
            steps {
                sleep 10
                sh 'mvn --version'
            }
        }
    }
}
        "#;
    let jenkinsfile = Jenkinsfile::from_str(code).unwrap();
    assert_eq!(1, jenkinsfile.stages.len());
    assert_eq!(2, jenkinsfile.stages[0].steps.len());
}

#[test]
pub fn should_parse_sub_stages() {
    let code = r#"pipeline {
    agent none
    stages {
        stage('Sequential') {
            agent {
                label 'for-sequential'
            }
            environment {
                FOR_SEQUENTIAL = "some-value"
            }
            stages {
                stage('In Sequential 1') {
                    steps {
                        echo "In Sequential 1"
                    }
                }
                stage('In Sequential 2') {
                    steps {
                        echo "In Sequential 2"
                    }
                }
            }
        }
    }
}
        "#;
    let jenkinsfile = Jenkinsfile::from_str(code).unwrap();

    assert_eq!(1, jenkinsfile.stages.len());
    assert_eq!(2, jenkinsfile.stages[0].sub_stages.len());
    assert_eq!(1, jenkinsfile.stages[0].sub_stages[0].steps.len());
}

#[test]
pub fn should_parse_sub_sub_stages() {
    let code = r#"pipeline {
    agent none
    stages {
        stage('Sequential') {
            agent {
                label 'for-sequential'
            }
            environment {
                FOR_SEQUENTIAL = "some-value"
            }
            stages {
                stage('In Sequential 1') {
                    steps {
                        echo "In Sequential 1"
                    }
                }
                stage('In Sequential 2') {
                    steps {
                        echo "In Sequential 2"
                    }
                }
                stage('Parallel In Sequential') {
                    parallel {
                        stage('In Parallel 1') {
                            steps {
                                echo "In Parallel 1"
                            }
                        }
                        stage('In Parallel 2') {
                            steps {
                                echo "In Parallel 2"
                            }
                        }
                    }
                }
            }
        }
    }
}
        "#;
    let jenkinsfile = Jenkinsfile::from_str(code).unwrap();

    assert_eq!(3, jenkinsfile.stages[0].sub_stages.len());
    assert_eq!(true, jenkinsfile.stages[0].sub_stages[2].is_parallel);
    assert_eq!(2, jenkinsfile.stages[0].sub_stages[2].sub_stages.len());
}

#[test]
pub fn should_parse_multiple_stages() {
    let code = r#"pipeline {
    agent none
    stages {
        stage('Build') {
            agent any
            steps {
                checkout scm
                sh 'make'
                stash includes: '**/target/*.jar', name: 'app'
            }
        }
        stage('Test on Linux') {
            agent {
                label 'linux'
            }
            steps {
                unstash 'app'
                sh 'make check'
            }
            post {
                always {
                    junit '**/target/*.xml'
                }
            }
        }
        stage('Test on Windows') {
            agent {
                label 'windows'
            }
            steps {
                unstash 'app'
                bat 'make check'
            }
            post {
                always {
                    junit '**/target/*.xml'
                }
            }
        }
    }
}
        "#;
    let jenkinsfile = Jenkinsfile::from_str(code).unwrap();
    assert_eq!(3, jenkinsfile.stages.len());
    assert_eq!("Build", jenkinsfile.stages[0].name);
    assert_eq!(3, jenkinsfile.stages[0].steps.len());
}
